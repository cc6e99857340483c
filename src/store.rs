use vstd::prelude::*;

use crate::record::{todos_view, users_view, Todo, TodoView, User, UserView};
use crate::text::same_text;

verus! {

/// What a reader of the store sees: the user rows and the todo rows, in insertion order.
pub struct StoreView {
    pub users: Seq<UserView>,
    pub todos: Seq<TodoView>,
}

pub open spec fn has_user(users: Seq<UserView>, id: u64) -> bool {
    exists|i: int| 0 <= i < users.len() && (#[trigger] users[i]).id == id
}

pub open spec fn has_todo(todos: Seq<TodoView>, id: u64) -> bool {
    exists|i: int| 0 <= i < todos.len() && (#[trigger] todos[i]).id == id
}

pub open spec fn email_taken(users: Seq<UserView>, email: Seq<char>) -> bool {
    exists|i: int| 0 <= i < users.len() && (#[trigger] users[i]).email == email
}

/// The rows of a table are told apart by their keys, emails are unique, and every
/// todo refers to a stored user.
pub open spec fn store_invariant(v: StoreView) -> bool {
    &&& forall|i: int, j: int|
        0 <= i < j < v.users.len() ==> (#[trigger] v.users[i]).id != (#[trigger] v.users[j]).id
    &&& forall|i: int, j: int|
        0 <= i < j < v.users.len() ==> (#[trigger] v.users[i]).email != (
        #[trigger] v.users[j]).email
    &&& forall|i: int, j: int|
        0 <= i < j < v.todos.len() ==> (#[trigger] v.todos[i]).id != (#[trigger] v.todos[j]).id
    &&& forall|i: int| 0 <= i < v.todos.len() ==> has_user(v.users, (#[trigger] v.todos[i]).user_id)
}

/// The todos among `todos` whose foreign key is `user_id`, in their order.
pub open spec fn todos_of(todos: Seq<TodoView>, user_id: u64) -> Seq<TodoView>
    decreases todos.len(),
{
    if todos.len() == 0 {
        Seq::empty()
    } else {
        let rest = todos_of(todos.drop_last(), user_id);
        if todos.last().user_id == user_id {
            rest.push(todos.last())
        } else {
            rest
        }
    }
}

#[derive(Clone, Copy, Debug, PartialEq, Eq)]
pub enum QueryError {
    /// Another user already has this email.
    UniqueViolation,
    /// The todo's foreign key names no stored user.
    ForeignKeyViolation,
}

/// A `belongs_to` reference whose key names no stored row.
#[derive(Clone, Copy, Debug, PartialEq, Eq)]
pub struct NotFound {
    pub key: u64,
}

/// The rows of the two tables, with the keys that the store assigns.
pub struct Store {
    users: Vec<User>,
    todos: Vec<Todo>,
}

impl View for Store {
    type V = StoreView;

    closed spec fn view(&self) -> StoreView {
        StoreView { users: users_view(self.users@), todos: todos_view(self.todos@) }
    }
}

impl Store {
    /// Keys are assigned in insertion order, starting at one.
    pub closed spec fn wf(&self) -> bool {
        &&& forall|i: int| 0 <= i < self.users@.len() ==> (#[trigger] self.users@[i]).id == i + 1
        &&& forall|i: int| 0 <= i < self.todos@.len() ==> (#[trigger] self.todos@[i]).id == i + 1
        &&& store_invariant(self@)
    }

    /// The rows of a well-formed store meet the store's invariant.
    pub proof fn lemma_wf_invariant(&self)
        requires
            self.wf(),
        ensures
            store_invariant(self@),
    {
    }

    pub fn new() -> (r: Store)
        ensures
            r.wf(),
            r@.users.len() == 0,
            r@.todos.len() == 0,
    {
        let r = Store { users: Vec::new(), todos: Vec::new() };
        assert(users_view(r.users@) =~= Seq::empty());
        assert(todos_view(r.todos@) =~= Seq::empty());
        r
    }

    fn email_in_use(&self, email: &String) -> (r: bool)
        ensures
            r == email_taken(self@.users, email@),
    {
        let mut i: usize = 0;
        while i < self.users.len()
            invariant
                i <= self.users@.len(),
                forall|j: int| 0 <= j < i ==> self.users@[j].email@ != email@,
            decreases self.users@.len() - i,
        {
            if same_text(self.users[i].email.as_str(), email.as_str()) {
                assert(self@.users[i as int].email == email@);
                return true;
            }
            i = i + 1;
        }
        assert forall|j: int| 0 <= j < self@.users.len() implies self@.users[j].email != email@ by {
            assert(self.users@[j].email@ != email@);
        }
        false
    }

    /// Inserts a user with a key chosen by the store; fails when the email is taken.
    pub fn insert_user(&mut self, name: String, email: String, moto: Option<String>) -> (r: Result<
        u64,
        QueryError,
    >)
        requires
            old(self).wf(),
            old(self)@.users.len() < u64::MAX,
        ensures
            final(self).wf(),
            final(self)@.todos == old(self)@.todos,
            r is Err <==> email_taken(old(self)@.users, email@),
            r matches Err(e) ==> e == QueryError::UniqueViolation && final(self)@ == old(self)@,
            r matches Ok(id) ==> !has_user(old(self)@.users, id) && final(self)@.users == old(
                self,
            )@.users.push(UserView { id, name: name@, email: email@, moto: crate::record::opt_text(moto) }),
    {
        if self.email_in_use(&email) {
            return Err(QueryError::UniqueViolation);
        }
        let id = self.users.len() as u64 + 1;
        let ghost old_view = self@;
        let ghost old_users = self@.users;
        let user = User { id, name, email, moto };
        self.users.push(user);
        assert(self@.users =~= old_users.push(user@));
        assert forall|i: int| 0 <= i < old_users.len() implies old_users[i].id != id by {
            assert(old(self).users@[i].id == i + 1);
        }
        assert forall|i: int| 0 <= i < self@.todos.len() implies has_user(
            self@.users,
            (#[trigger] self@.todos[i]).user_id,
        ) by {
            assert(self@.todos[i] == old_view.todos[i]);
            assert(has_user(old_users, old_view.todos[i].user_id));
            let k = choose|k: int|
                0 <= k < old_users.len() && (#[trigger] old_users[k]).id == self@.todos[i].user_id;
            assert(self@.users[k] == old_users[k]);
        }
        Ok(id)
    }
    /// Inserts a todo of the user whose key is `user_id`; fails when no such user is stored.
    pub fn insert_todo(&mut self, user_id: u64, title: String) -> (r: Result<u64, QueryError>)
        requires
            old(self).wf(),
            old(self)@.todos.len() < u64::MAX,
        ensures
            final(self).wf(),
            final(self)@.users == old(self)@.users,
            r is Err <==> !has_user(old(self)@.users, user_id),
            r matches Err(e) ==> e == QueryError::ForeignKeyViolation && final(self)@ == old(self)@,
            r matches Ok(id) ==> !has_todo(old(self)@.todos, id) && final(self)@.todos == old(
                self,
            )@.todos.push(TodoView { id, user_id, title: title@ }),
    {
        if self.user(user_id).is_none() {
            return Err(QueryError::ForeignKeyViolation);
        }
        let id = self.todos.len() as u64 + 1;
        let ghost old_todos = self@.todos;
        let todo = Todo { id, user_id, title };
        self.todos.push(todo);
        assert(self@.todos =~= old_todos.push(todo@));
        assert forall|i: int| 0 <= i < old_todos.len() implies old_todos[i].id != id by {
            assert(old(self).todos@[i].id == i + 1);
        }
        Ok(id)
    }

    /// Looks a user up by key.
    pub fn user(&self, id: u64) -> (r: Option<&User>)
        requires
            self.wf(),
        ensures
            r is Some <==> has_user(self@.users, id),
            r matches Some(u) ==> u.id == id && self@.users.contains(u@),
    {
        if id == 0 || id > self.users.len() as u64 {
            assert forall|i: int| 0 <= i < self@.users.len() implies self@.users[i].id != id by {
                assert(self.users@[i].id == i + 1);
            }
            return None;
        }
        let k = (id - 1) as usize;
        let u = &self.users[k];
        assert(self@.users[k as int] == u@);
        Some(u)
    }

    /// Every user, in the store's order.
    pub fn all_users(&self) -> (r: Vec<User>)
        ensures
            users_view(r@) == self@.users,
    {
        let mut r: Vec<User> = Vec::new();
        let mut i: usize = 0;
        while i < self.users.len()
            invariant
                i <= self.users@.len(),
                users_view(r@) == self@.users.subrange(0, i as int),
            decreases self.users@.len() - i,
        {
            let ghost before = r@;
            r.push(self.users[i].copied());
            assert(users_view(r@) =~= users_view(before).push(self.users@[i as int]@));
            assert(self@.users.subrange(0, i + 1) =~= self@.users.subrange(0, i as int).push(
                self.users@[i as int]@,
            ));
            i = i + 1;
        }
        assert(self@.users.subrange(0, i as int) =~= self@.users);
        r
    }

    /// Every todo, in the store's order.
    pub fn all_todos(&self) -> (r: Vec<Todo>)
        ensures
            todos_view(r@) == self@.todos,
    {
        let mut r: Vec<Todo> = Vec::new();
        let mut i: usize = 0;
        while i < self.todos.len()
            invariant
                i <= self.todos@.len(),
                todos_view(r@) == self@.todos.subrange(0, i as int),
            decreases self.todos@.len() - i,
        {
            let ghost before = r@;
            r.push(self.todos[i].copied());
            assert(todos_view(r@) =~= todos_view(before).push(self.todos@[i as int]@));
            assert(self@.todos.subrange(0, i + 1) =~= self@.todos.subrange(0, i as int).push(
                self.todos@[i as int]@,
            ));
            i = i + 1;
        }
        assert(self@.todos.subrange(0, i as int) =~= self@.todos);
        r
    }

    /// Resolves the `belongs_to` reference of a todo to its user.
    pub fn owner(&self, todo: &Todo) -> (r: Result<&User, NotFound>)
        requires
            self.wf(),
        ensures
            r is Err <==> !has_user(self@.users, todo.user_id),
            r matches Err(e) ==> e.key == todo.user_id,
            r matches Ok(u) ==> u.id == todo.user_id && self@.users.contains(u@),
    {
        match self.user(todo.user_id) {
            Some(u) => Ok(u),
            None => Err(NotFound { key: todo.user_id }),
        }
    }

    /// The todos whose foreign key is `user_id`: the `has_many` side of the relation.
    pub fn todos_of_user(&self, user_id: u64) -> (r: Vec<Todo>)
        ensures
            todos_view(r@) == todos_of(self@.todos, user_id),
    {
        let mut r: Vec<Todo> = Vec::new();
        let mut i: usize = 0;
        while i < self.todos.len()
            invariant
                i <= self.todos@.len(),
                todos_view(r@) == todos_of(self@.todos.subrange(0, i as int), user_id),
            decreases self.todos@.len() - i,
        {
            let ghost before = r@;
            let ghost prefix = self@.todos.subrange(0, i + 1);
            assert(prefix.drop_last() =~= self@.todos.subrange(0, i as int));
            assert(prefix.last() == self.todos@[i as int]@);
            if self.todos[i].user_id == user_id {
                r.push(self.todos[i].copied());
                assert(todos_view(r@) =~= todos_view(before).push(self.todos@[i as int]@));
            }
            i = i + 1;
        }
        assert(self@.todos.subrange(0, i as int) =~= self@.todos);
        r
    }
}

} // verus!
