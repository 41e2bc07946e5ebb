//! The chunk naming convention.
//!
//! The asset collaborator identifies worlds by name: the start chunk is
//! `Start_Hall`, every generated chunk is `Level_<code>` with the decimal
//! wall code in `[0, 14]`. A name that parses to no code is a fatal
//! configuration error for the caller; parsing itself just reports the
//! failure.

use vstd::prelude::*;
use vstd::string::StrSliceExecFns;
use vstd::string::StringExecFns;

verus! {

/// The name of the start chunk.
pub open spec fn start_name() -> Seq<char> {
    "Start_Hall"@
}

/// The name of a generated chunk with the given wall code.
pub open spec fn level_name_view(code: int) -> Seq<char> {
    if code == 0 {
        "Level_0"@
    } else if code == 1 {
        "Level_1"@
    } else if code == 2 {
        "Level_2"@
    } else if code == 3 {
        "Level_3"@
    } else if code == 4 {
        "Level_4"@
    } else if code == 5 {
        "Level_5"@
    } else if code == 6 {
        "Level_6"@
    } else if code == 7 {
        "Level_7"@
    } else if code == 8 {
        "Level_8"@
    } else if code == 9 {
        "Level_9"@
    } else if code == 10 {
        "Level_10"@
    } else if code == 11 {
        "Level_11"@
    } else if code == 12 {
        "Level_12"@
    } else if code == 13 {
        "Level_13"@
    } else if code == 14 {
        "Level_14"@
    } else {
        Seq::empty()
    }
}

/// Law: the sixteen names are pairwise distinct — no two codes share a
/// name and no code's name is the start chunk's — so a name produced from
/// a code parses back to exactly that code.
pub proof fn lemma_names_unambiguous()
    ensures
        forall|i: int, j: int|
            0 <= i <= 14 && 0 <= j <= 14 && i != j ==> level_name_view(i) != level_name_view(j),
        forall|i: int| 0 <= i <= 14 ==> level_name_view(i) != start_name(),
{
    reveal_strlit("Start_Hall");
    reveal_strlit("Level_0");
    reveal_strlit("Level_1");
    reveal_strlit("Level_2");
    reveal_strlit("Level_3");
    reveal_strlit("Level_4");
    reveal_strlit("Level_5");
    reveal_strlit("Level_6");
    reveal_strlit("Level_7");
    reveal_strlit("Level_8");
    reveal_strlit("Level_9");
    reveal_strlit("Level_10");
    reveal_strlit("Level_11");
    reveal_strlit("Level_12");
    reveal_strlit("Level_13");
    reveal_strlit("Level_14");
    assert forall|i: int, j: int|
        0 <= i <= 14 && 0 <= j <= 14 && i != j implies level_name_view(i) != level_name_view(
        j,
    ) by {
        if level_name_view(i) == level_name_view(j) {
            assert(level_name_view(i).len() == level_name_view(j).len());
            assert(level_name_view(i)[6] == level_name_view(j)[6]);
            assert(level_name_view(i)[7] == level_name_view(j)[7]);
        }
    }
    assert forall|i: int| 0 <= i <= 14 implies level_name_view(i) != start_name() by {
        if level_name_view(i) == start_name() {
            assert(level_name_view(i).len() == start_name().len());
        }
    }
}

/// The name of a generated chunk, as a string.
pub fn level_name(code: u8) -> (s: String)
    requires
        code <= 14,
    ensures
        s@ == level_name_view(code as int),
{
    String::from_str(level_name_slice(code))
}

/// The name of a generated chunk, as a string slice.
pub fn level_name_slice(code: u8) -> (s: &'static str)
    requires
        code <= 14,
    ensures
        s@ == level_name_view(code as int),
{
    match code {
        0 => "Level_0",
        1 => "Level_1",
        2 => "Level_2",
        3 => "Level_3",
        4 => "Level_4",
        5 => "Level_5",
        6 => "Level_6",
        7 => "Level_7",
        8 => "Level_8",
        9 => "Level_9",
        10 => "Level_10",
        11 => "Level_11",
        12 => "Level_12",
        13 => "Level_13",
        _ => "Level_14",
    }
}

/// The name of the start chunk, as a string.
pub fn start_hall_name() -> (s: String)
    ensures
        s@ == start_name(),
{
    String::from_str("Start_Hall")
}

/// Character-by-character string equality.
fn str_eq(a: &str, b: &str) -> (r: bool)
    ensures
        r == (a@ == b@),
{
    let la = a.unicode_len();
    let lb = b.unicode_len();
    if la != lb {
        return false;
    }
    let mut i: usize = 0;
    while i < la
        invariant
            la == a@.len(),
            lb == b@.len(),
            la == lb,
            i <= la,
            forall|j: int| 0 <= j < i ==> a@[j] == b@[j],
        decreases la - i,
    {
        if a.get_char(i) != b.get_char(i) {
            return false;
        }
        i = i + 1;
    }
    proof {
        assert(a@ =~= b@);
    }
    true
}

/// Parse a chunk name back to its wall code: `Start_Hall` is the start
/// chunk's reserved code 0, `Level_<code>` is its decimal code, and any
/// other name reports `None` — a fatal configuration error to the caller,
/// since the data source is trusted to follow the naming convention.
pub fn code_of_name(s: &str) -> (r: Option<u8>)
    ensures
        match r {
            Some(c) => c <= 14 && (s@ == level_name_view(c as int) || (c == 0 && s@
                == start_name())),
            None => s@ != start_name() && forall|k: int|
                0 <= k <= 14 ==> s@ != level_name_view(k),
        },
        s@ == start_name() ==> r == Some(0u8),
        forall|k: u8| k <= 14 && s@ == level_name_view(k as int) ==> r == Some(k),
{
    proof {
        lemma_names_unambiguous();
    }
    if str_eq(s, "Start_Hall") {
        return Some(0);
    }
    let mut c: u8 = 0;
    while c <= 14
        invariant
            c <= 15,
            s@ != start_name(),
            forall|k: int| 0 <= k < c ==> s@ != level_name_view(k),
            forall|i: int, j: int|
                0 <= i <= 14 && 0 <= j <= 14 && i != j ==> level_name_view(i) != level_name_view(
                    j,
                ),
        decreases 15 - c,
    {
        if str_eq(s, level_name_slice(c)) {
            return Some(c);
        }
        c = c + 1;
    }
    None
}

} // verus!
