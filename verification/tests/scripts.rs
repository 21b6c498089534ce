use vortex_ais::script::{ais_script, mods_script, plus_script, wrap_mod};

#[test]
fn wrap_mod_guards_source() {
    assert_eq!(wrap_mod("a()"), "try {a()} catch (error) {console.warn(error);}");
}

#[test]
fn mods_script_joins_in_order() {
    let mods = vec!["a()".to_string(), "b()".to_string()];
    assert_eq!(
        mods_script(&mods),
        "try {a()} catch (error) {console.warn(error);}try {b()} catch (error) {console.warn(error);}"
    );
}

#[test]
fn mods_script_of_no_mods_is_empty() {
    assert_eq!(mods_script(&Vec::new()), "");
}

#[test]
fn mods_script_of_joined_lists_is_joined_scripts() {
    let first = vec!["x".to_string()];
    let second = vec!["y".to_string(), "z".to_string()];
    let mut both = first.clone();
    both.extend(second.clone());
    assert_eq!(mods_script(&both), format!("{}{}", mods_script(&first), mods_script(&second)));
}

#[test]
fn plus_script_matches_template() {
    let expected = format!(r#"(() => {{{} {} {} run(`{}`)}})();"#, "I", "S", "H", "C");
    assert_eq!(plus_script("I", "S", "H", "C"), expected);
}

#[test]
fn ais_script_matches_template() {
    let overrider = "O";
    let search = "S";
    let maploader = "M";
    let inject = "I";
    let mods_script = "X";
    let css = "C";
    let expected = format!(
        r#"(() => {{
        try {{{overrider}}} catch (error) {{ console.warn(error); }}
        try {{{search}}} catch (error) {{ console.warn(error); }}
        try {{{maploader}}} catch (error) {{ console.warn(error); }}
        try {{{inject}}} catch (error) {{ console.warn(error); }}

        {mods_script} /* from mods */

        run(`{css}`)
        }})();"#
    );
    assert_eq!(ais_script(overrider, search, maploader, inject, mods_script, css), expected);
}
