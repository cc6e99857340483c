use vstd::prelude::*;

use crate::record::{User, UserView};

verus! {

/// One column of a row as the store returns it.
#[derive(Clone, Debug)]
pub enum Column {
    Null,
    Int(u64),
    Text(String),
}

/// A row that does not fit the user entity; carries the row's position.
#[derive(Clone, Copy, Debug, PartialEq, Eq)]
pub struct DecodeError {
    pub row: usize,
}

/// The user that a row of columns `id, name, email, moto` stands for, if it fits.
pub open spec fn user_of_row(row: Seq<Column>) -> Option<UserView> {
    if row.len() != 4 {
        None
    } else {
        match (row[0], row[1], row[2], row[3]) {
            (Column::Int(id), Column::Text(name), Column::Text(email), Column::Null) => Some(
                UserView { id, name: name@, email: email@, moto: None },
            ),
            (Column::Int(id), Column::Text(name), Column::Text(email), Column::Text(moto)) => Some(
                UserView { id, name: name@, email: email@, moto: Some(moto@) },
            ),
            _ => None,
        }
    }
}

/// Maps one row onto the user entity.
pub fn decode_user(row: &Vec<Column>) -> (r: Option<User>)
    ensures
        match r {
            Some(u) => user_of_row(row@) == Some(u@),
            None => user_of_row(row@) is None,
        },
{
    if row.len() != 4 {
        return None;
    }
    let id = match &row[0] {
        Column::Int(id) => *id,
        _ => return None,
    };
    let name = match &row[1] {
        Column::Text(s) => s.clone(),
        _ => return None,
    };
    let email = match &row[2] {
        Column::Text(s) => s.clone(),
        _ => return None,
    };
    let moto = match &row[3] {
        Column::Null => None,
        Column::Text(s) => Some(s.clone()),
        _ => return None,
    };
    Some(User { id, name, email, moto })
}

/// Materializes every row, in order; fails at the first row that does not fit.
pub fn collect_users(rows: &Vec<Vec<Column>>) -> (r: Result<Vec<User>, DecodeError>)
    ensures
        r is Ok <==> forall|i: int| 0 <= i < rows@.len() ==> (#[trigger] user_of_row(rows@[i]@)) is Some,
        r matches Ok(us) ==> us@.len() == rows@.len() && forall|i: int|
            0 <= i < rows@.len() ==> user_of_row(rows@[i]@) == Some(#[trigger] us@[i]@),
        r matches Err(e) ==> e.row < rows@.len() && user_of_row(rows@[e.row as int]@) is None
            && forall|i: int| 0 <= i < e.row ==> (#[trigger] user_of_row(rows@[i]@)) is Some,
{
    let mut us: Vec<User> = Vec::new();
    let mut i: usize = 0;
    while i < rows.len()
        invariant
            i <= rows@.len(),
            us@.len() == i,
            forall|k: int| 0 <= k < i ==> user_of_row(rows@[k]@) == Some(#[trigger] us@[k]@),
        decreases rows@.len() - i,
    {
        match decode_user(&rows[i]) {
            Some(u) => us.push(u),
            None => {
                assert forall|k: int| 0 <= k < i implies (#[trigger] user_of_row(rows@[k]@)) is Some by {
                    assert(user_of_row(rows@[k]@) == Some(us@[k]@));
                }
                return Err(DecodeError { row: i });
            },
        }
        i = i + 1;
    }
    assert forall|k: int| 0 <= k < rows@.len() implies (#[trigger] user_of_row(rows@[k]@)) is Some by {
        assert(user_of_row(rows@[k]@) == Some(us@[k]@));
    }
    Ok(us)
}

} // verus!
