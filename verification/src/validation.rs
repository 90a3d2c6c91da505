//! The order-validation pipeline: a read-only directory of users, keyed by
//! id, against which candidate orders are checked one by one. An order is
//! accepted when its user exists, the user's email holds an `@`, and the
//! amount stays within a fixed ceiling; a batch fails fast on its first
//! rejected order.
//!
//! Amounts are carried in cents, so that money stays in exact integers.

use std::collections::HashMap;
use vstd::prelude::*;
use vstd::string::StrSliceExecFns;
use vstd::string::StringExecFns;

verus! {

broadcast use vstd::std_specs::hash::group_hash_axioms;

/// The largest amount, in cents, that the pipeline accepts.
pub const AMOUNT_LIMIT_CENTS: u64 = 100_000;

/// A user record. Identity is `id`; `email` is checked by the pipeline.
#[derive(Clone, Debug, PartialEq)]
pub struct User {
    pub id: u32,
    pub name: String,
    pub email: String,
}

/// A candidate order. `user_id` need not resolve in the directory; that is
/// established only when the pipeline runs. `amount_cents` is the amount in
/// cents.
#[derive(Clone, Debug, PartialEq)]
pub struct Order {
    pub user_id: u32,
    pub amount_cents: u64,
    pub status: String,
}

/// The read-only directory the pipeline resolves user ids against.
pub type UserDatabase = HashMap<u32, User>;

/// Why an order was rejected: its user is unknown, its user's email is
/// malformed, or its amount (carried along, in cents) is over the ceiling.
#[derive(Clone, Debug, PartialEq)]
pub enum OrderError {
    UserNotFound(u32),
    InvalidUser(String),
    AmountTooLarge(u64),
}

/// A user is valid exactly when its email contains an `@`.
pub open spec fn user_valid(u: User) -> bool {
    u.email@.contains('@')
}

/// The text that rejects an invalid user, naming the offending user.
pub open spec fn invalid_email_message(u: User) -> Seq<char> {
    "Invalid email for user "@ + u.name@
}

impl User {
    /// Build a user record from its parts.
    pub fn new(id: u32, name: &str, email: &str) -> (r: Self)
        ensures
            r.id == id,
            r.name@ == name@,
            r.email@ == email@,
    {
        User { id, name: name.to_owned(), email: email.to_owned() }
    }
}

/// Whether `s` contains the character `c`.
fn str_contains_char(s: &str, c: char) -> (r: bool)
    ensures
        r == s@.contains(c),
{
    let n = s.unicode_len();
    let mut i: usize = 0;
    while i < n
        invariant
            n == s@.len(),
            0 <= i <= n,
            forall|j: int| 0 <= j < i ==> s@[j] != c,
        decreases n - i,
    {
        if s.get_char(i) == c {
            assert(s@.contains(c)) by {
                assert(s@[i as int] == c);
            }
            return true;
        }
        i = i + 1;
    }
    assert(!s@.contains(c));
    false
}

/// Succeeds with the same user exactly when the email holds an `@`;
/// otherwise fails with the text that names the user.
pub fn validate_user(user: &User) -> (r: Result<&User, String>)
    ensures
        match r {
            Ok(u) => user_valid(*user) && u == user,
            Err(m) => !user_valid(*user) && m@ == invalid_email_message(*user),
        },
{
    if str_contains_char(user.email.as_str(), '@') {
        Ok(user)
    } else {
        let mut m = "Invalid email for user ".to_owned();
        m.append(user.name.as_str());
        Err(m)
    }
}

/// The user under `id`, if the directory holds one.
pub fn find_user(db: &UserDatabase, id: u32) -> (r: Option<&User>)
    ensures
        match r {
            Some(u) => db@.contains_key(id) && *u == db@[id],
            None => !db@.contains_key(id),
        },
{
    db.get(&id)
}

/// An order is accepted exactly when its user exists, that user is valid,
/// and the amount stays within the ceiling.
pub open spec fn order_accepted(db: Map<u32, User>, o: Order) -> bool {
    &&& db.contains_key(o.user_id)
    &&& user_valid(db[o.user_id])
    &&& o.amount_cents <= AMOUNT_LIMIT_CENTS
}

/// The exact rejection that the pipeline owes for `o` against `db`: which
/// variant, with which payload, on which inputs. The checks run in a fixed
/// order — existence, then email, then amount — so each variant also records
/// that the earlier checks passed.
pub open spec fn order_rejection(db: Map<u32, User>, o: Order, e: OrderError) -> bool {
    match e {
        OrderError::UserNotFound(id) => {
            &&& id == o.user_id
            &&& !db.contains_key(o.user_id)
        },
        OrderError::InvalidUser(m) => {
            &&& db.contains_key(o.user_id)
            &&& !user_valid(db[o.user_id])
            &&& m@ == invalid_email_message(db[o.user_id])
        },
        OrderError::AmountTooLarge(a) => {
            &&& db.contains_key(o.user_id)
            &&& user_valid(db[o.user_id])
            &&& a == o.amount_cents
            &&& o.amount_cents > AMOUNT_LIMIT_CENTS
        },
    }
}

/// Resolve and validate the user of one order, without the amount check.
/// Succeeds with the user and the order exactly when the user exists and is
/// valid; the first failing check decides the error.
pub fn process_order<'a>(db: &'a UserDatabase, order: &'a Order) -> (r: Result<
    (&'a User, &'a Order),
    OrderError,
>)
    ensures
        match r {
            Ok((u, o)) => {
                &&& db@.contains_key(order.user_id)
                &&& *u == db@[order.user_id]
                &&& user_valid(*u)
                &&& o == order
            },
            Err(e) => match e {
                OrderError::UserNotFound(id) => {
                    &&& id == order.user_id
                    &&& !db@.contains_key(order.user_id)
                },
                OrderError::InvalidUser(m) => {
                    &&& db@.contains_key(order.user_id)
                    &&& !user_valid(db@[order.user_id])
                    &&& m@ == invalid_email_message(db@[order.user_id])
                },
                OrderError::AmountTooLarge(_) => false,
            },
        },
{
    let user = match find_user(db, order.user_id) {
        Some(u) => u,
        None => {
            return Err(OrderError::UserNotFound(order.user_id));
        },
    };
    let validated_user = match validate_user(user) {
        Ok(u) => u,
        Err(m) => {
            return Err(OrderError::InvalidUser(m));
        },
    };
    Ok((validated_user, order))
}

/// The text that reports one processed order, naming its user.
pub open spec fn processed_message(u: User) -> Seq<char> {
    "Order processed for "@ + u.name@
}

/// Run all three checks on one order. Succeeds, with a report that names the
/// user, exactly when the order is accepted; the first failing check decides
/// the error.
pub fn process_order_advanced(db: &UserDatabase, order: &Order) -> (r: Result<String, OrderError>)
    ensures
        match r {
            Ok(m) => {
                &&& order_accepted(db@, *order)
                &&& m@ == processed_message(db@[order.user_id])
            },
            Err(e) => order_rejection(db@, *order, e),
        },
{
    let user = match find_user(db, order.user_id) {
        Some(u) => u,
        None => {
            return Err(OrderError::UserNotFound(order.user_id));
        },
    };
    if let Err(m) = validate_user(user) {
        return Err(OrderError::InvalidUser(m));
    }
    if order.amount_cents > AMOUNT_LIMIT_CENTS {
        return Err(OrderError::AmountTooLarge(order.amount_cents));
    }
    let mut m = "Order processed for ".to_owned();
    m.append(user.name.as_str());
    Ok(m)
}

/// What `validate_orders` owes: on success, exactly the input orders in their
/// original order (all accepted); on failure, the rejection of the first
/// order that fails a check, with every earlier order accepted.
pub open spec fn validate_orders_post(
    db: Map<u32, User>,
    orders: Seq<Order>,
    r: Result<Seq<Order>, OrderError>,
) -> bool {
    match r {
        Ok(v) => {
            &&& v == orders
            &&& forall|i: int| 0 <= i < orders.len() ==> order_accepted(db, #[trigger] orders[i])
        },
        Err(e) => exists|i: int| {
            &&& 0 <= i < orders.len()
            &&& #[trigger] order_rejection(db, orders[i], e)
            &&& forall|j: int| 0 <= j < i ==> order_accepted(db, #[trigger] orders[j])
        },
    }
}

/// Validate a batch of orders against the directory, in input order,
/// failing fast: the first order whose user is missing, whose user is
/// invalid, or whose amount is over the ceiling decides the error, and no
/// partial list is returned beside it. On full success the accepted orders
/// come back unchanged, in their original order.
pub fn validate_orders<'a>(orders: &'a Vec<Order>, user_db: &UserDatabase) -> (r: Result<
    Vec<&'a Order>,
    OrderError,
>)
    ensures
        validate_orders_post(
            user_db@,
            orders@,
            match r {
                Ok(v) => Ok(v@.map_values(|o: &Order| *o)),
                Err(e) => Err(e),
            },
        ),
{
    let ghost db = user_db@;
    let mut valid_orders: Vec<&'a Order> = Vec::new();
    let mut idx: usize = 0;
    while idx < orders.len()
        invariant
            0 <= idx <= orders@.len(),
            valid_orders@.len() == idx,
            forall|j: int| 0 <= j < idx ==> *(#[trigger] valid_orders@[j]) == orders@[j],
            forall|j: int| 0 <= j < idx ==> order_accepted(db, #[trigger] orders@[j]),
            db == user_db@,
        decreases orders@.len() - idx,
    {
        let order = &orders[idx];

        // The user behind the order must exist ...
        let user = match find_user(user_db, order.user_id) {
            Some(u) => u,
            None => {
                let e = OrderError::UserNotFound(order.user_id);
                assert(order_rejection(db, orders@[idx as int], e));
                return Err(e);
            },
        };

        // ... carry a well-formed email ...
        if let Err(m) = validate_user(user) {
            let e = OrderError::InvalidUser(m);
            assert(order_rejection(db, orders@[idx as int], e));
            return Err(e);
        }

        // ... and the amount must stay within the ceiling.
        if order.amount_cents > AMOUNT_LIMIT_CENTS {
            let e = OrderError::AmountTooLarge(order.amount_cents);
            assert(order_rejection(db, orders@[idx as int], e));
            return Err(e);
        }

        valid_orders.push(order);
        idx = idx + 1;
    }
    assert(valid_orders@.map_values(|o: &Order| *o) =~= orders@);
    Ok(valid_orders)
}

/// A rejected order is never an accepted one: whichever variant explains the
/// rejection contradicts one of the three acceptance checks.
pub proof fn lemma_rejection_refuses_acceptance(db: Map<u32, User>, o: Order, e: OrderError)
    requires
        order_rejection(db, o, e),
    ensures
        !order_accepted(db, o),
{
}

/// An order whose user id is not in the directory is rejected, and the only
/// rejection it can carry is `UserNotFound` with that very id.
pub proof fn lemma_missing_user_rejected(db: Map<u32, User>, o: Order, e: OrderError)
    requires
        !db.contains_key(o.user_id),
    ensures
        !order_accepted(db, o),
        order_rejection(db, o, e) <==> e == OrderError::UserNotFound(o.user_id),
{
}

/// An order whose user exists but carries an email without `@` is rejected,
/// and the only rejection it can carry is `InvalidUser` with the text that
/// names that user.
pub proof fn lemma_invalid_user_rejected(db: Map<u32, User>, o: Order, e: OrderError)
    requires
        db.contains_key(o.user_id),
        !user_valid(db[o.user_id]),
    ensures
        !order_accepted(db, o),
        order_rejection(db, o, e) <==> (e matches OrderError::InvalidUser(m) && m@
            == invalid_email_message(db[o.user_id])),
{
}

/// An order whose user exists and is valid but whose amount is over the
/// ceiling is rejected, and the only rejection it can carry is
/// `AmountTooLarge` with that very amount.
pub proof fn lemma_amount_rejected(db: Map<u32, User>, o: Order, e: OrderError)
    requires
        db.contains_key(o.user_id),
        user_valid(db[o.user_id]),
        o.amount_cents > AMOUNT_LIMIT_CENTS,
    ensures
        !order_accepted(db, o),
        order_rejection(db, o, e) <==> e == OrderError::AmountTooLarge(o.amount_cents),
{
}

/// A batch whose orders are all accepted comes back whole: any result that
/// `validate_orders` may return for it is exactly the input sequence, in its
/// original order.
pub proof fn lemma_all_valid_batch(
    db: Map<u32, User>,
    orders: Seq<Order>,
    r: Result<Seq<Order>, OrderError>,
)
    requires
        validate_orders_post(db, orders, r),
        forall|i: int| 0 <= i < orders.len() ==> order_accepted(db, #[trigger] orders[i]),
    ensures
        r == Ok::<Seq<Order>, OrderError>(orders),
{
    if let Err(e) = r {
        let i = choose|i: int| {
            &&& 0 <= i < orders.len()
            &&& #[trigger] order_rejection(db, orders[i], e)
            &&& forall|j: int| 0 <= j < i ==> order_accepted(db, #[trigger] orders[j])
        };
        lemma_rejection_refuses_acceptance(db, orders[i], e);
    }
}

/// Fail-fast: when `i` is the lowest index whose order fails a check, any
/// result that `validate_orders` may return is an error, and that error is
/// exactly the rejection owed to the order at `i` — no partial list of
/// accepted orders comes back beside it.
pub proof fn lemma_fail_fast(
    db: Map<u32, User>,
    orders: Seq<Order>,
    r: Result<Seq<Order>, OrderError>,
    i: int,
)
    requires
        validate_orders_post(db, orders, r),
        0 <= i < orders.len(),
        !order_accepted(db, orders[i]),
        forall|j: int| 0 <= j < i ==> order_accepted(db, #[trigger] orders[j]),
    ensures
        r matches Err(e) && order_rejection(db, orders[i], e),
{
    match r {
        Ok(_) => {
            assert(order_accepted(db, orders[i]));
        },
        Err(e) => {
            let k = choose|k: int| {
                &&& 0 <= k < orders.len()
                &&& #[trigger] order_rejection(db, orders[k], e)
                &&& forall|j: int| 0 <= j < k ==> order_accepted(db, #[trigger] orders[j])
            };
            lemma_rejection_refuses_acceptance(db, orders[k], e);
            if k < i {
                assert(order_accepted(db, orders[k]));
            } else if i < k {
                assert(order_accepted(db, orders[i]));
            }
        },
    }
}

/// Two results agree observably: same success list, or same error variant
/// with the same payload (message texts compared character for character).
pub open spec fn same_outcome(
    r1: Result<Seq<Order>, OrderError>,
    r2: Result<Seq<Order>, OrderError>,
) -> bool {
    match (r1, r2) {
        (Ok(v1), Ok(v2)) => v1 == v2,
        (Err(e1), Err(e2)) => match (e1, e2) {
            (OrderError::UserNotFound(a), OrderError::UserNotFound(b)) => a == b,
            (OrderError::InvalidUser(m1), OrderError::InvalidUser(m2)) => m1@ == m2@,
            (OrderError::AmountTooLarge(a), OrderError::AmountTooLarge(b)) => a == b,
            _ => false,
        },
        _ => false,
    }
}

/// The pipeline is a pure function of its inputs: two runs of
/// `validate_orders` over the same directory and batch agree observably, so
/// calling it twice yields the identical outcome.
pub proof fn lemma_idempotent(
    db: Map<u32, User>,
    orders: Seq<Order>,
    r1: Result<Seq<Order>, OrderError>,
    r2: Result<Seq<Order>, OrderError>,
)
    requires
        validate_orders_post(db, orders, r1),
        validate_orders_post(db, orders, r2),
    ensures
        same_outcome(r1, r2),
{
    if forall|i: int| 0 <= i < orders.len() ==> order_accepted(db, #[trigger] orders[i]) {
        lemma_all_valid_batch(db, orders, r1);
        lemma_all_valid_batch(db, orders, r2);
    } else {
        let w = choose|w: int| 0 <= w < orders.len() && !order_accepted(db, #[trigger] orders[w]);
        let i = first_rejected_index(db, orders, w);
        lemma_fail_fast(db, orders, r1, i);
        lemma_fail_fast(db, orders, r2, i);
    }
}

/// The lowest index at or below `w` whose order fails a check, given that
/// the order at `w` fails one.
proof fn first_rejected_index(db: Map<u32, User>, orders: Seq<Order>, w: int) -> (i: int)
    requires
        0 <= w < orders.len(),
        !order_accepted(db, orders[w]),
    ensures
        0 <= i < orders.len(),
        !order_accepted(db, orders[i]),
        forall|j: int| 0 <= j < i ==> order_accepted(db, #[trigger] orders[j]),
    decreases w,
{
    if forall|j: int| 0 <= j < w ==> order_accepted(db, #[trigger] orders[j]) {
        w
    } else {
        let w2 = choose|w2: int| 0 <= w2 < w && !order_accepted(db, #[trigger] orders[w2]);
        first_rejected_index(db, orders, w2)
    }
}

} // verus!
