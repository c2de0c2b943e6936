use vstd::prelude::*;
use rand::seq::SliceRandom;
use crate::command_line::{decimal, push_decimal};

verus! {

/// Relies on rand's `SliceRandom::choose` with the thread-local generator:
/// one of the items, at random; it is `None` only for an empty slice.
#[verifier::external_body]
fn choose_one(items: &[&str]) -> (r: String)
    requires
        items@.len() > 0,
    ensures
        items@.map_values(|t: &str| t@).contains(r@),
{
    items.choose(&mut rand::thread_rng()).unwrap().to_string()
}

pub open spec fn drown_replies_spec() -> Seq<Seq<char>> {
    seq!["I can't"@, "Impossible"@, "I tried, but it didn't work"@, "Is this Worms?"@]
}

/// The answer to being asked to drown: one of four refusals, at random.
pub fn drown() -> (r: String)
    ensures
        drown_replies_spec().contains(r@),
{
    let replies: [&str; 4] = ["I can't", "Impossible", "I tried, but it didn't work", "Is this Worms?"];
    let choice = choose_one(&replies);
    proof {
        assert(replies@.map_values(|t: &str| t@) =~= drown_replies_spec());
    }
    choice
}

/// What to do with a role that a member asked for.
#[derive(Clone, Copy, Debug, PartialEq, Eq)]
pub enum RoleChange {
    Add,
    Remove,
}

/// Asking for a role toggles it: a member who has it loses it.
pub fn role_change(has_role: bool) -> (r: RoleChange)
    ensures
        r == (if has_role { RoleChange::Remove } else { RoleChange::Add }),
{
    if has_role {
        RoleChange::Remove
    } else {
        RoleChange::Add
    }
}

pub open spec fn role_change_message_spec(user_id: u64, role: Seq<char>, change: RoleChange) -> Seq<char> {
    "<@"@ + decimal(user_id as nat) + match change {
        RoleChange::Add => ">: You now have the \""@,
        RoleChange::Remove => ">: You no longer have the \""@,
    } + role + "\" role"@
}

/// The reply after a role was toggled, mentioning the member.
pub fn role_change_message(user_id: u64, role: &str, change: RoleChange) -> (r: String)
    ensures
        r@ == role_change_message_spec(user_id, role@, change),
{
    let mut s = String::from_str("<@");
    push_decimal(&mut s, user_id as u128);
    match change {
        RoleChange::Add => s.append(">: You now have the \""),
        RoleChange::Remove => s.append(">: You no longer have the \""),
    }
    s.append(role);
    s.append("\" role");
    s
}

/// The reply after tracks were queued: the title for one, the count for more,
/// `None` when nothing was found to queue.
pub fn queued_message(count: usize, first_title: &str) -> (r: Option<String>)
    ensures
        count == 0 ==> r is None,
        count == 1 ==> (r matches Some(x) && x@ == "Added song to queue: "@ + first_title@),
        count > 1 ==> (r matches Some(x) && x@ == "Added "@ + decimal(count as nat) + " songs to the queue"@),
{
    if count == 0 {
        None
    } else if count == 1 {
        let mut s = String::from_str("Added song to queue: ");
        s.append(first_title);
        Some(s)
    } else {
        let mut s = String::from_str("Added ");
        push_decimal(&mut s, count as u128);
        s.append(" songs to the queue");
        Some(s)
    }
}

} // verus!
