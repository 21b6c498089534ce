use vstd::prelude::*;
use crate::text::same_text;

verus! {

/// The program that the launcher starts, beside the launcher itself.
pub const VORTEX_EXE: &'static str = "vortex.exe";

/// The folder of mods, beside the launcher.
pub const MODS_DIR: &'static str = "mods";

/// The folder an update is unpacked into, beside the launcher.
pub const UPDATE_DIR: &'static str = "update_tmp";

/// The folder of page files that an update replaces.
pub const SOURCE_DIR: &'static str = "src";

/// The position of the first of `names` equal to `wanted`.
pub open spec fn spec_first_named(names: Seq<Seq<char>>, wanted: Seq<char>) -> Option<int>
    decreases names.len(),
{
    if names.len() == 0 {
        None
    } else if names.last() == wanted {
        match spec_first_named(names.drop_last(), wanted) {
            Some(i) => Some(i),
            None => Some(names.len() - 1),
        }
    } else {
        spec_first_named(names.drop_last(), wanted)
    }
}

proof fn lemma_first_named_extends(names: Seq<Seq<char>>, wanted: Seq<char>, i: int)
    requires
        0 <= i < names.len(),
        spec_first_named(names.take(i), wanted) is None,
        names[i] != wanted,
    ensures
        spec_first_named(names.take(i + 1), wanted) is None,
{
    assert(names.take(i + 1).drop_last() =~= names.take(i));
}

/// Finds the new `vortex.exe` among the file names of the unpacked update (in the
/// order the folder listed them): its position, or the error shown when it is missing.
pub fn locate_new_binary(names: &Vec<String>) -> (res: Result<usize, String>)
    ensures
        match res {
            Ok(i) => spec_first_named(names@.map_values(|n: String| n@), "vortex.exe"@) == Some(
                i as int,
            ),
            Err(e) => spec_first_named(names@.map_values(|n: String| n@), "vortex.exe"@) is None
                && e@ == "vortex.exe not found"@,
        },
{
    let ghost views = names@.map_values(|n: String| n@);
    let mut i: usize = 0;
    assert(views.take(0) =~= Seq::<Seq<char>>::empty());
    while i < names.len()
        invariant
            i <= names.len(),
            views == names@.map_values(|n: String| n@),
            spec_first_named(views.take(i as int), "vortex.exe"@) is None,
        decreases names.len() - i,
    {
        if same_text(names[i].as_str(), VORTEX_EXE) {
            assert(views.take(i + 1).drop_last() =~= views.take(i as int));
            assert(views.take(i + 1).last() == views[i as int]);
            assert(spec_first_named(views.take(i + 1), "vortex.exe"@) == Some(i as int));
            proof {
                lemma_first_named_prefix(views, "vortex.exe"@, i as int + 1);
            }
            return Ok(i);
        }
        proof {
            lemma_first_named_extends(views, "vortex.exe"@, i as int);
        }
        i = i + 1;
    }
    assert(views.take(names.len() as int) =~= views);
    Err(String::from_str("vortex.exe not found"))
}

/// Once a prefix holds the name, longer lists find it at the same place.
proof fn lemma_first_named_prefix(names: Seq<Seq<char>>, wanted: Seq<char>, k: int)
    requires
        0 <= k <= names.len(),
        spec_first_named(names.take(k), wanted) is Some,
    ensures
        spec_first_named(names, wanted) == spec_first_named(names.take(k), wanted),
    decreases names.len() - k,
{
    if k == names.len() {
        assert(names.take(k) =~= names);
    } else {
        assert(names.take(k + 1).drop_last() =~= names.take(k));
        lemma_first_named_prefix(names, wanted, k + 1);
    }
}

/// The position found is that of the first name equal to `wanted`: it is found exactly
/// when some name equals `wanted`, the name there equals it, and no earlier name does.
pub proof fn lemma_first_named_is_first_match(names: Seq<Seq<char>>, wanted: Seq<char>)
    ensures
        spec_first_named(names, wanted) is None <==> forall|j: int|
            0 <= j < names.len() ==> names[j] != wanted,
        forall|i: int|
            0 <= i < names.len() && names[i] == wanted && (forall|j: int|
                0 <= j < i ==> names[j] != wanted) ==> spec_first_named(names, wanted) == Some(
                i,
            ),
        spec_first_named(names, wanted) matches Some(i) ==> 0 <= i < names.len() && names[i]
            == wanted && forall|j: int| 0 <= j < i ==> names[j] != wanted,
    decreases names.len(),
{
    if names.len() > 0 {
        let init = names.drop_last();
        lemma_first_named_is_first_match(init, wanted);
        assert forall|j: int| 0 <= j < init.len() implies init[j] == names[j] by {}
    }
}

} // verus!
