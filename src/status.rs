use vstd::prelude::*;

use crate::presence::PresenceSnapshot;

verus! {

pub open spec fn present_heading() -> Seq<char> {
    "Currently in space: \n"@
}

pub open spec fn no_data_text() -> Seq<char> {
    "No data collected yet. Probably Mikrotik password is incorrect. Tell that to the admin.\n"@
}

/// The text of the status command. While nothing is known it says so, and
/// never reads as "nobody present"; once known, it heads `users`, the
/// rendered list of those present (which may be empty).
pub fn cmd_status_text(snapshot: &PresenceSnapshot, users: &str) -> (r: String)
    ensures
        snapshot@ is Some ==> r@ == present_heading() + users@,
        snapshot@ is None ==> r@ == no_data_text(),
{
    match snapshot.active_users() {
        Some(_) => {
            let mut text = String::from_str("Currently in space: \n");
            text.append(users);
            text
        },
        None => String::from_str(
            "No data collected yet. Probably Mikrotik password is incorrect. Tell that to the admin.\n",
        ),
    }
}

} // verus!
