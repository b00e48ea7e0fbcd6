//! The report printed after installing: the compiler's verbose version,
//! the installed targets, and the output of the test program.
use vstd::prelude::*;
use crate::text::{
    chars_of, concat, contains, contains_str, lines, lines_of, string_of, string_views, trim,
    trim_chars, views,
};

verus! {

/// How one line of `rustc --version --verbose` is shown: the host line of an
/// MSVC compiler is marked, other non-blank lines are indented, blank lines
/// are left out.
pub open spec fn info_line(l: Seq<char>) -> Option<Seq<char>> {
    if contains(l, "host:"@) && contains(l, "msvc"@) {
        Some("✅ "@ + l)
    } else if contains(l, "release:"@) || contains(l, "commit-hash:"@) {
        Some("   "@ + l)
    } else if trim(l).len() > 0 {
        Some("   "@ + l)
    } else {
        None
    }
}

/// The shown lines for the lines `ls`, in order.
pub open spec fn info_lines(ls: Seq<Seq<char>>) -> Seq<Seq<char>>
    decreases ls.len(),
{
    if ls.len() == 0 {
        seq![]
    } else {
        let rest = info_lines(ls.drop_last());
        match info_line(ls.last()) {
            Some(x) => rest.push(x),
            None => rest,
        }
    }
}

/// The lines shown for the output of `rustc --version --verbose`.
pub fn rustc_info_report(stdout: &str) -> (shown: Vec<String>)
    ensures
        string_views(shown@) == info_lines(lines(stdout@)),
{
    let text = chars_of(stdout);
    let ls = lines_of(&text);
    let ghost lv = views(ls@);
    let mut shown: Vec<String> = Vec::new();
    let mut i: usize = 0;
    while i < ls.len()
        invariant
            i <= ls@.len(),
            lv == views(ls@),
            lv == lines(stdout@),
            string_views(shown@) == info_lines(lv.take(i as int)),
        decreases ls@.len() - i,
    {
        let line = &ls[i];
        let ghost before = string_views(shown@);
        assert(lv.take(i + 1).drop_last() =~= lv.take(i as int));
        assert(lv.take(i + 1).last() == line@);
        let text_line = string_of(line);
        if contains_str(line, "host:") && contains_str(line, "msvc") {
            shown.push(concat("✅ ", text_line.as_str()));
            assert(string_views(shown@) =~= before.push("✅ "@ + line@));
        } else if contains_str(line, "release:") || contains_str(line, "commit-hash:") {
            shown.push(concat("   ", text_line.as_str()));
            assert(string_views(shown@) =~= before.push("   "@ + line@));
        } else if trim_chars(line).len() > 0 {
            shown.push(concat("   ", text_line.as_str()));
            assert(string_views(shown@) =~= before.push("   "@ + line@));
        }
        i = i + 1;
    }
    assert(lv.take(ls@.len() as int) =~= lv);
    shown
}

/// How one line of `rustup target list --installed` is shown: Windows MSVC
/// targets are marked, the others indented.
pub open spec fn target_line(l: Seq<char>) -> Seq<char> {
    if contains(l, "windows-msvc"@) {
        "✅ "@ + l
    } else {
        "   "@ + l
    }
}

/// The lines shown for the installed targets.
pub fn target_report(stdout: &str) -> (shown: Vec<String>)
    ensures
        string_views(shown@) == lines(stdout@).map_values(|l: Seq<char>| target_line(l)),
{
    let text = chars_of(stdout);
    let ls = lines_of(&text);
    let ghost lv = views(ls@);
    let mut shown: Vec<String> = Vec::new();
    let mut i: usize = 0;
    while i < ls.len()
        invariant
            i <= ls@.len(),
            lv == views(ls@),
            lv == lines(stdout@),
            string_views(shown@) == lv.take(i as int).map_values(|l: Seq<char>| target_line(l)),
        decreases ls@.len() - i,
    {
        let line = &ls[i];
        let ghost before = string_views(shown@);
        assert(lv[i as int] == line@);
        let text_line = string_of(line);
        if contains_str(line, "windows-msvc") {
            shown.push(concat("✅ ", text_line.as_str()));
        } else {
            shown.push(concat("   ", text_line.as_str()));
        }
        assert(string_views(shown@) =~= before.push(target_line(line@)));
        assert(lv.take(i + 1) =~= lv.take(i as int).push(line@));
        assert(string_views(shown@) =~= lv.take(i + 1).map_values(
            |l: Seq<char>| target_line(l),
        ));
        i = i + 1;
    }
    assert(lv.take(ls@.len() as int) =~= lv);
    shown
}

/// The test program reports that it was built for the MSVC environment.
pub open spec fn msvc_detected_spec(output: Seq<char>) -> bool {
    contains(output, "Successfully using MSVC environment"@)
}

/// Whether the test program's output says it runs in the MSVC environment.
pub fn msvc_environment_detected(output: &str) -> (b: bool)
    ensures
        b == msvc_detected_spec(output@),
{
    contains_str(&chars_of(output), "Successfully using MSVC environment")
}

} // verus!
