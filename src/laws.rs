use vstd::prelude::*;

use crate::record::{TodoView, UserView};
use crate::store::{email_taken, has_user, store_invariant, todos_of, StoreView};

verus! {

/// Reading back a freshly inserted user by its key yields the inserted fields:
/// no other row of a store that meets the invariant carries that key.
pub proof fn lemma_round_trip(
    before: StoreView,
    after: StoreView,
    inserted: UserView,
    found: UserView,
)
    requires
        store_invariant(after),
        after.users == before.users.push(inserted),
        after.users.contains(found),
        found.id == inserted.id,
    ensures
        found == inserted,
{
    let k = choose|k: int| 0 <= k < after.users.len() && after.users[k] == found;
    let last = after.users.len() - 1;
    assert(after.users[last] == inserted);
    if k != last {
        assert(after.users[k].id != after.users[last].id);
    }
}

/// Once a user is stored, its email is taken: a second insert with the same email is
/// refused, and the first row is still there.
pub proof fn lemma_email_stays_unique(before: StoreView, after: StoreView, first: UserView)
    requires
        after.users == before.users.push(first),
    ensures
        email_taken(after.users, first.email),
        after.users.contains(first),
{
    let last = after.users.len() - 1;
    assert(after.users[last] == first);
}

/// The `belongs_to` reference of a stored todo resolves, and to exactly one user.
pub proof fn lemma_belongs_to_resolves(s: StoreView, t: TodoView)
    requires
        store_invariant(s),
        s.todos.contains(t),
    ensures
        has_user(s.users, t.user_id),
        forall|i: int, j: int|
            0 <= i < s.users.len() && 0 <= j < s.users.len() && (#[trigger] s.users[i]).id
                == t.user_id && (#[trigger] s.users[j]).id == t.user_id ==> i == j,
{
    let k = choose|k: int| 0 <= k < s.todos.len() && s.todos[k] == t;
    assert(has_user(s.users, s.todos[k].user_id));
    assert forall|i: int, j: int|
        0 <= i < s.users.len() && 0 <= j < s.users.len() && (#[trigger] s.users[i]).id
            == t.user_id && (#[trigger] s.users[j]).id == t.user_id implies i == j by {
        if i < j {
            assert(s.users[i].id != s.users[j].id);
        } else if j < i {
            assert(s.users[j].id != s.users[i].id);
        }
    }
}

/// The `has_many` side holds exactly the todos whose foreign key is the parent's key.
pub proof fn lemma_has_many_exact(todos: Seq<TodoView>, user_id: u64)
    ensures
        forall|t: TodoView|
            #[trigger] todos_of(todos, user_id).contains(t) <==> (todos.contains(t) && t.user_id
                == user_id),
    decreases todos.len(),
{
    if todos.len() > 0 {
        let rest = todos.drop_last();
        lemma_has_many_exact(rest, user_id);
        assert(todos =~= rest.push(todos.last()));
        assert forall|t: TodoView| #[trigger]
            todos_of(todos, user_id).contains(t) <==> (todos.contains(t) && t.user_id
                == user_id) by {
            let rest_of = todos_of(rest, user_id);
            if todos.last().user_id == user_id {
                assert(todos_of(todos, user_id) == rest_of.push(todos.last()));
            } else {
                assert(todos_of(todos, user_id) == rest_of);
            }
            if todos.contains(t) && t.user_id == user_id {
                let k = choose|k: int| 0 <= k < todos.len() && todos[k] == t;
                if k < todos.len() - 1 {
                    assert(rest[k] == t);
                    assert(rest_of.contains(t));
                    let m = choose|m: int| 0 <= m < rest_of.len() && rest_of[m] == t;
                    if todos.last().user_id == user_id {
                        assert(rest_of.push(todos.last())[m] == t);
                    }
                } else {
                    assert(todos_of(todos, user_id).last() == t);
                }
            }
            if todos_of(todos, user_id).contains(t) {
                let rest_of = todos_of(rest, user_id);
                if todos.last().user_id == user_id {
                    if t != todos.last() {
                        let k = choose|k: int|
                            0 <= k < todos_of(todos, user_id).len() && todos_of(todos, user_id)[k]
                                == t;
                        assert(rest_of.push(todos.last())[k] == t);
                        assert(rest_of[k] == t);
                        assert(rest_of.contains(t));
                        let m = choose|m: int| 0 <= m < rest.len() && rest[m] == t;
                        assert(todos[m] == t);
                    }
                } else {
                    assert(rest_of.contains(t));
                    let m = choose|m: int| 0 <= m < rest.len() && rest[m] == t;
                    assert(todos[m] == t);
                }
            }
        }
    }
}

/// Listing a table twice, with no write in between, gives the same rows in the same order.
pub proof fn lemma_listing_stable(s: StoreView, first: Seq<UserView>, second: Seq<UserView>)
    requires
        first == s.users,
        second == s.users,
    ensures
        first == second,
{
}

} // verus!
