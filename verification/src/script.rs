use vstd::prelude::*;

verus! {

/// The text that wraps one mod so that a failing mod only warns in the console.
pub open spec fn spec_wrap_mod(m: Seq<char>) -> Seq<char> {
    "try {"@ + m + "} catch (error) {console.warn(error);}"@
}

/// All mods wrapped and joined, in the order in which they were read.
pub open spec fn spec_mods_script(mods: Seq<Seq<char>>) -> Seq<char>
    decreases mods.len(),
{
    if mods.len() == 0 {
        Seq::empty()
    } else {
        spec_mods_script(mods.drop_last()) + spec_wrap_mod(mods.last())
    }
}

/// Wraps one mod's source in a `try`/`catch` that logs a warning.
pub fn wrap_mod(m: &str) -> (res: String)
    ensures
        res@ == spec_wrap_mod(m@),
{
    let mut res = String::from_str("try {");
    res.append(m);
    res.append("} catch (error) {console.warn(error);}");
    res
}

/// Joins all mods, each wrapped by `wrap_mod`, in order.
pub fn mods_script(mods: &Vec<String>) -> (res: String)
    ensures
        res@ == spec_mods_script(mods@.map_values(|m: String| m@)),
{
    let ghost views = mods@.map_values(|m: String| m@);
    let mut res = String::new();
    let mut i: usize = 0;
    while i < mods.len()
        invariant
            i <= mods.len(),
            views == mods@.map_values(|m: String| m@),
            res@ == spec_mods_script(views.take(i as int)),
        decreases mods.len() - i,
    {
        let wrapped = wrap_mod(mods[i].as_str());
        res.append(wrapped.as_str());
        assert(views.take(i + 1).drop_last() =~= views.take(i as int));
        i = i + 1;
    }
    assert(views.take(mods.len() as int) =~= views);
    res
}

/// The script that the Vortex Plus window injects: the three page scripts,
/// then `run` on the style sheet.
pub open spec fn spec_plus_script(
    inject: Seq<char>,
    search: Seq<char>,
    shader: Seq<char>,
    css: Seq<char>,
) -> Seq<char> {
    "(() => {"@ + inject + " "@ + search + " "@ + shader + " run(`"@ + css + "`)})();"@
}

/// Builds the initialization script of the Vortex Plus window.
pub fn plus_script(inject: &str, search: &str, shader: &str, css: &str) -> (res: String)
    ensures
        res@ == spec_plus_script(inject@, search@, shader@, css@),
{
    let mut res = String::from_str("(() => {");
    res.append(inject);
    res.append(" ");
    res.append(search);
    res.append(" ");
    res.append(shader);
    res.append(" run(`");
    res.append(css);
    res.append("`)})();");
    res
}

/// One page script guarded so that its failure only warns; the line is indented
/// for the surrounding script.
pub open spec fn spec_guarded_line(src: Seq<char>) -> Seq<char> {
    "\n        try {"@ + src + "} catch (error) { console.warn(error); }"@
}

/// The script that the Vortex AIS window injects: four guarded page scripts,
/// the mods, then `run` on the style sheet.
pub open spec fn spec_ais_script(
    overrider: Seq<char>,
    search: Seq<char>,
    maploader: Seq<char>,
    inject: Seq<char>,
    mods: Seq<char>,
    css: Seq<char>,
) -> Seq<char> {
    "(() => {"@ + spec_guarded_line(overrider) + spec_guarded_line(search) + spec_guarded_line(
        maploader,
    ) + spec_guarded_line(inject) + "\n\n        "@ + mods + " /* from mods */\n\n        run(`"@
        + css + "`)\n        })();"@
}

fn append_guarded(res: &mut String, src: &str)
    ensures
        final(res)@ == old(res)@ + spec_guarded_line(src@),
{
    res.append("\n        try {");
    res.append(src);
    res.append("} catch (error) { console.warn(error); }");
}

/// Builds the initialization script of the Vortex AIS window.
pub fn ais_script(
    overrider: &str,
    search: &str,
    maploader: &str,
    inject: &str,
    mods: &str,
    css: &str,
) -> (res: String)
    ensures
        res@ == spec_ais_script(overrider@, search@, maploader@, inject@, mods@, css@),
{
    let mut res = String::from_str("(() => {");
    append_guarded(&mut res, overrider);
    append_guarded(&mut res, search);
    append_guarded(&mut res, maploader);
    append_guarded(&mut res, inject);
    res.append("\n\n        ");
    res.append(mods);
    res.append(" /* from mods */\n\n        run(`");
    res.append(css);
    res.append("`)\n        })();");
    res
}

/// Joining mods distributes over lists: the script of two lists of mods is the script
/// of the first followed by the script of the second.
pub proof fn lemma_mods_script_appends(first: Seq<Seq<char>>, second: Seq<Seq<char>>)
    ensures
        spec_mods_script(first + second) == spec_mods_script(first) + spec_mods_script(second),
    decreases second.len(),
{
    if second.len() == 0 {
        assert(first + second =~= first);
        assert(spec_mods_script(first) + Seq::<char>::empty() =~= spec_mods_script(first));
    } else {
        assert((first + second).drop_last() =~= first + second.drop_last());
        assert((first + second).last() == second.last());
        lemma_mods_script_appends(first, second.drop_last());
        assert(spec_mods_script(first) + spec_mods_script(second.drop_last()) + spec_wrap_mod(
            second.last(),
        ) =~= spec_mods_script(first) + (spec_mods_script(second.drop_last()) + spec_wrap_mod(
            second.last(),
        )));
    }
}

/// A single mod becomes exactly its source inside a `try` block whose `catch` warns in the
/// console: nothing of the mod is dropped or changed, whatever its text.
pub proof fn lemma_one_mod_is_wrapped(m: Seq<char>)
    ensures
        spec_mods_script(seq![m]) == "try {"@ + m + "} catch (error) {console.warn(error);}"@,
{
    let one = seq![m];
    assert(one.drop_last() =~= Seq::<Seq<char>>::empty());
    assert(one.last() == m);
    assert(spec_mods_script(one.drop_last()) == Seq::<char>::empty());
    assert(spec_mods_script(one) == spec_mods_script(one.drop_last()) + spec_wrap_mod(m));
    assert(Seq::<char>::empty() + spec_wrap_mod(m) =~= spec_wrap_mod(m));
}

/// The script of mods holds each mod's wrapped text, in order: adding a mod at the end adds
/// exactly its wrapped text at the end.
pub proof fn lemma_mods_script_push(mods: Seq<Seq<char>>, m: Seq<char>)
    ensures
        spec_mods_script(mods.push(m)) == spec_mods_script(mods) + "try {"@ + m
            + "} catch (error) {console.warn(error);}"@,
{
    lemma_mods_script_appends(mods, seq![m]);
    lemma_one_mod_is_wrapped(m);
    assert(mods + seq![m] =~= mods.push(m));
    assert(spec_mods_script(mods) + ("try {"@ + m + "} catch (error) {console.warn(error);}"@)
        =~= spec_mods_script(mods) + "try {"@ + m + "} catch (error) {console.warn(error);}"@);
}

} // verus!
