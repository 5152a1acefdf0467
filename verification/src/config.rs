use vstd::prelude::*;

verus! {

broadcast use vstd::string::to_string_from_display_ensures_for_str;

/// Directory from which the wind field is loaded when the configuration
/// names none.
pub open spec fn spec_default_wind_field_dir() -> Seq<char> {
    "output/wind_fields/mann_anisotropic"@
}

/// Default location of the saved wind field.
pub fn default_wind_field_dir() -> (dir: String)
    ensures
        dir@ == spec_default_wind_field_dir(),
{
    "output/wind_fields/mann_anisotropic".to_string()
}

/// Name of the formation leader's output directory.
pub open spec fn spec_leader_name() -> Seq<char> {
    "leader"@
}

/// Output names of a formation run: the leader first, then each follower
/// under its configured name, in order.
pub fn formation_names(follower_names: &Vec<String>) -> (names: Vec<String>)
    requires
        follower_names.len() < usize::MAX,
    ensures
        names.len() == follower_names.len() + 1,
        names[0]@ == spec_leader_name(),
        forall|i: int| 0 <= i < follower_names.len() ==> #[trigger] names[i + 1]@ == follower_names[i]@,
{
    let mut names: Vec<String> = Vec::new();
    names.push("leader".to_string());
    let mut idx: usize = 0;
    while idx < follower_names.len()
        invariant
            idx <= follower_names.len(),
            names.len() == idx + 1,
            names[0]@ == spec_leader_name(),
            forall|i: int| 0 <= i < idx ==> #[trigger] names[i + 1]@ == follower_names[i]@,
        decreases follower_names.len() - idx,
    {
        names.push(follower_names[idx].clone());
        idx = idx + 1;
    }
    names
}

} // verus!
