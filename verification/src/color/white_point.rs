//! The CIE standard illuminants and the names they are looked up by.

use vstd::prelude::*;

verus! {

/// A CIE standard illuminant (or the DCI-P3 theatrical white).
#[derive(Debug, Clone, Copy, PartialEq, Eq, Structural)]
pub enum StandardIlluminant {
    /// Horizon light, the ICC profile connection space white
    D50,
    /// Mid-morning daylight
    D55,
    /// Daylight used by ACES
    D60,
    /// Noon daylight, the white of sRGB and most displays
    D65,
    /// North sky daylight
    D75,
    /// DCI-P3 theatrical white
    DciP3,
    /// Incandescent light
    A,
    /// Equal energy
    E,
    /// Cool white fluorescent
    F2,
    /// Broadband daylight fluorescent
    F7,
    /// Narrow band white fluorescent
    F11,
}

/// What `str::to_uppercase` yields for a string (Unicode upper-casing, the same on every
/// machine).
pub uninterp spec fn uppercase(s: Seq<char>) -> Seq<char>;

/// Every character is ASCII.
pub open spec fn all_ascii(s: Seq<char>) -> bool {
    forall|i: int| 0 <= i < s.len() ==> (s[i] as u32) < 128
}

/// ASCII upper-casing: `a` to `z` become `A` to `Z`, every other character stays.
pub open spec fn ascii_upper(s: Seq<char>) -> Seq<char> {
    s.map_values(|c: char| if 'a' <= c && c <= 'z' { ((c as u32) - 32) as char } else { c })
}

/// `str::to_uppercase`: the upper-case form of the string; on ASCII text, as std documents,
/// it maps `a` to `z` to `A` to `Z` and keeps every other character.
#[verifier::external_body]
fn to_uppercase(s: &str) -> (r: String)
    ensures
        r@ == uppercase(s@),
        r@ == ascii_upper(s@) || !all_ascii(s@),
{
    s.to_uppercase()
}

/// The illuminant an upper-case name stands for.
pub open spec fn illuminant_named(u: Seq<char>) -> Option<StandardIlluminant> {
    if u == "D50"@ {
        Some(StandardIlluminant::D50)
    } else if u == "D55"@ {
        Some(StandardIlluminant::D55)
    } else if u == "D60"@ {
        Some(StandardIlluminant::D60)
    } else if u == "D65"@ {
        Some(StandardIlluminant::D65)
    } else if u == "D75"@ {
        Some(StandardIlluminant::D75)
    } else if u == "DCI-P3"@ || u == "DCI"@ {
        Some(StandardIlluminant::DciP3)
    } else if u == "A"@ {
        Some(StandardIlluminant::A)
    } else if u == "E"@ {
        Some(StandardIlluminant::E)
    } else if u == "F2"@ {
        Some(StandardIlluminant::F2)
    } else if u == "F7"@ {
        Some(StandardIlluminant::F7)
    } else if u == "F11"@ {
        Some(StandardIlluminant::F11)
    } else {
        None
    }
}

/// Whether a string holds exactly the characters of `lit`.
fn is_text(u: &String, lit: &str) -> (b: bool)
    ensures
        b == (u@ == lit@),
{
    let t = lit.to_owned();
    *u == t
}

/// Get a standard illuminant by name, ignoring case.
pub fn from_name(name: &str) -> (r: Option<StandardIlluminant>)
    ensures
        r == illuminant_named(uppercase(name@)),
        all_ascii(name@) ==> r == illuminant_named(ascii_upper(name@)),
{
    let u = to_uppercase(name);
    if is_text(&u, "D50") {
        Some(StandardIlluminant::D50)
    } else if is_text(&u, "D55") {
        Some(StandardIlluminant::D55)
    } else if is_text(&u, "D60") {
        Some(StandardIlluminant::D60)
    } else if is_text(&u, "D65") {
        Some(StandardIlluminant::D65)
    } else if is_text(&u, "D75") {
        Some(StandardIlluminant::D75)
    } else if is_text(&u, "DCI-P3") || is_text(&u, "DCI") {
        Some(StandardIlluminant::DciP3)
    } else if is_text(&u, "A") {
        Some(StandardIlluminant::A)
    } else if is_text(&u, "E") {
        Some(StandardIlluminant::E)
    } else if is_text(&u, "F2") {
        Some(StandardIlluminant::F2)
    } else if is_text(&u, "F7") {
        Some(StandardIlluminant::F7)
    } else if is_text(&u, "F11") {
        Some(StandardIlluminant::F11)
    } else {
        None
    }
}

/// The name of each illuminant, as white points carry it.
pub open spec fn illuminant_name(i: StandardIlluminant) -> Seq<char> {
    match i {
        StandardIlluminant::D50 => "D50"@,
        StandardIlluminant::D55 => "D55"@,
        StandardIlluminant::D60 => "D60"@,
        StandardIlluminant::D65 => "D65"@,
        StandardIlluminant::D75 => "D75"@,
        StandardIlluminant::DciP3 => "DCI-P3"@,
        StandardIlluminant::A => "A"@,
        StandardIlluminant::E => "E"@,
        StandardIlluminant::F2 => "F2"@,
        StandardIlluminant::F7 => "F7"@,
        StandardIlluminant::F11 => "F11"@,
    }
}

impl StandardIlluminant {
    /// The illuminant's name.
    pub fn name(&self) -> (r: &'static str)
        ensures
            r@ == illuminant_name(*self),
    {
        match self {
            StandardIlluminant::D50 => "D50",
            StandardIlluminant::D55 => "D55",
            StandardIlluminant::D60 => "D60",
            StandardIlluminant::D65 => "D65",
            StandardIlluminant::D75 => "D75",
            StandardIlluminant::DciP3 => "DCI-P3",
            StandardIlluminant::A => "A",
            StandardIlluminant::E => "E",
            StandardIlluminant::F2 => "F2",
            StandardIlluminant::F7 => "F7",
            StandardIlluminant::F11 => "F11",
        }
    }
}

/// Every illuminant is found again by its own name: names are upper case and no two
/// illuminants share one.
#[verifier::spinoff_prover]
pub proof fn illuminant_found_by_its_name(i: StandardIlluminant)
    ensures
        illuminant_named(illuminant_name(i)) == Some(i),
{
    reveal_strlit("D50");
    reveal_strlit("D55");
    reveal_strlit("D60");
    reveal_strlit("D65");
    reveal_strlit("D75");
    reveal_strlit("DCI-P3");
    reveal_strlit("DCI");
    reveal_strlit("A");
    reveal_strlit("E");
    reveal_strlit("F2");
    reveal_strlit("F7");
    reveal_strlit("F11");
    // Each name differs from every name tested before it, in length or at one place.
    assert("D55"@[2] != "D50"@[2]);
    assert("D60"@[1] != "D50"@[1] && "D60"@[1] != "D55"@[1]);
    assert("D65"@[1] != "D50"@[1] && "D65"@[1] != "D55"@[1] && "D65"@[2] != "D60"@[2]);
    assert("D75"@[1] != "D50"@[1] && "D75"@[1] != "D60"@[1]);
    assert("DCI"@[1] != "D50"@[1] && "DCI"@[1] != "D60"@[1] && "DCI"@[1] != "D75"@[1]);
    assert("E"@[0] != "A"@[0]);
    assert("F7"@[1] != "F2"@[1]);
    assert("F11"@[0] != "D50"@[0] && "F11"@[0] != "DCI"@[0]);
    assert("DCI-P3"@.len() != "D50"@.len());
    assert("F7"@.len() == 2 && "D65"@.len() == 3 && "D75"@.len() == 3);
    match i {
        StandardIlluminant::D50 => assert(illuminant_named(illuminant_name(i)) == Some(i)),
        StandardIlluminant::D55 => assert(illuminant_named(illuminant_name(i)) == Some(i)),
        StandardIlluminant::D60 => assert(illuminant_named(illuminant_name(i)) == Some(i)),
        StandardIlluminant::D65 => assert(illuminant_named(illuminant_name(i)) == Some(i)),
        StandardIlluminant::D75 => assert(illuminant_named(illuminant_name(i)) == Some(i)),
        StandardIlluminant::DciP3 => assert(illuminant_named(illuminant_name(i)) == Some(i)),
        StandardIlluminant::A => assert(illuminant_named(illuminant_name(i)) == Some(i)),
        StandardIlluminant::E => assert(illuminant_named(illuminant_name(i)) == Some(i)),
        StandardIlluminant::F2 => assert(illuminant_named(illuminant_name(i)) == Some(i)),
        StandardIlluminant::F7 => {
            assert("F7"@ != "A"@ && "F7"@ != "E"@ && "F7"@ != "F2"@);
            assert("F7"@ != "D50"@ && "F7"@ != "D55"@ && "F7"@ != "D60"@);
            assert("F7"@ != "D65"@ && "F7"@ != "D75"@);
            assert("F7"@ != "DCI-P3"@ && "F7"@ != "DCI"@);
            assert(illuminant_named(illuminant_name(i)) == Some(i));
        },
        StandardIlluminant::F11 => assert(illuminant_named(illuminant_name(i)) == Some(i)),
    }
}

} // verus!
