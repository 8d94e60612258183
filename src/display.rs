use vstd::prelude::*;

verus! {

broadcast use vstd::string::group_string_axioms;

/// The house drawn below the animation, one line per row.
pub open spec fn house_lines() -> Seq<Seq<char>> {
    seq![
        "        _______"@,
        "       /       \\"@,
        "      /  _   _  \\"@,
        "     /__|_|_|_|__\\"@,
        "     |  _     _  |"@,
        "     | |_|   |_| |"@,
        "     |    ___    |"@,
        "     |   |   |   |"@,
        "_____|___|___|___|_____"@,
    ]
}

/// A fixed picture of a house.
pub struct AsciiDisplay;

impl AsciiDisplay {
    /// The lines of the house, top to bottom.
    pub fn render_house() -> (r: Vec<String>)
        ensures
            r.deep_view() == house_lines(),
    {
        let r = vec![
            "        _______".to_string(),
            "       /       \\".to_string(),
            "      /  _   _  \\".to_string(),
            "     /__|_|_|_|__\\".to_string(),
            "     |  _     _  |".to_string(),
            "     | |_|   |_| |".to_string(),
            "     |    ___    |".to_string(),
            "     |   |   |   |".to_string(),
            "_____|___|___|___|_____".to_string(),
        ];
        assert(r.deep_view() =~= house_lines());
        r
    }
}

} // verus!
