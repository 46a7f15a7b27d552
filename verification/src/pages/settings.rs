use vstd::prelude::*;

verus! {

/// The line under the username field: "Current username: " and the username.
pub fn current_username_label(username: &str) -> (label: String)
    ensures
        label@ == "Current username: "@ + username@,
{
    let mut label = String::from_str("Current username: ");
    label.append(username);
    label
}

} // verus!
