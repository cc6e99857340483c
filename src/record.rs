use vstd::prelude::*;

verus! {

/// A stored user: key, name, unique email and an optional motto.
#[derive(Clone, Debug)]
pub struct User {
    pub id: u64,
    pub name: String,
    pub email: String,
    pub moto: Option<String>,
}

/// A stored todo, belonging to the user whose key is `user_id`.
#[derive(Clone, Debug)]
pub struct Todo {
    pub id: u64,
    pub user_id: u64,
    pub title: String,
}

pub struct UserView {
    pub id: u64,
    pub name: Seq<char>,
    pub email: Seq<char>,
    pub moto: Option<Seq<char>>,
}

pub struct TodoView {
    pub id: u64,
    pub user_id: u64,
    pub title: Seq<char>,
}

pub open spec fn opt_text(o: Option<String>) -> Option<Seq<char>> {
    match o {
        Some(s) => Some(s@),
        None => None,
    }
}

impl View for User {
    type V = UserView;

    open spec fn view(&self) -> UserView {
        UserView { id: self.id, name: self.name@, email: self.email@, moto: opt_text(self.moto) }
    }
}

impl View for Todo {
    type V = TodoView;

    open spec fn view(&self) -> TodoView {
        TodoView { id: self.id, user_id: self.user_id, title: self.title@ }
    }
}

pub open spec fn users_view(s: Seq<User>) -> Seq<UserView> {
    s.map_values(|u: User| u@)
}

pub open spec fn todos_view(s: Seq<Todo>) -> Seq<TodoView> {
    s.map_values(|t: Todo| t@)
}

pub fn copy_opt_text(o: &Option<String>) -> (r: Option<String>)
    ensures
        opt_text(r) == opt_text(*o),
{
    match o {
        Some(s) => Some(s.clone()),
        None => None,
    }
}

impl User {
    /// A field-for-field copy.
    pub fn copied(&self) -> (r: User)
        ensures
            r@ == self@,
    {
        User {
            id: self.id,
            name: self.name.clone(),
            email: self.email.clone(),
            moto: copy_opt_text(&self.moto),
        }
    }
}

impl Todo {
    /// A field-for-field copy.
    pub fn copied(&self) -> (r: Todo)
        ensures
            r@ == self@,
    {
        Todo { id: self.id, user_id: self.user_id, title: self.title.clone() }
    }
}

} // verus!
