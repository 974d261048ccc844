//! Running one command in many repositories: the targets, and the lines a
//! finished command contributes to its repository's output pane.

use vstd::prelude::*;

use crate::text::{chars_of, lines, push_chars, push_str, split_lines, string_of, string_views, views};

verus! {

/// A repository a command runs in: the pane label and the working directory.
pub struct Target {
    pub label: String,
    pub workdir: String,
}

/// `p` put in front of every line of `ls`.
pub open spec fn prefixed(p: Seq<char>, ls: Seq<Seq<char>>) -> Seq<Seq<char>> {
    ls.map_values(|l: Seq<char>| p + l)
}

/// What a command that ran shows: its standard output line by line, then
/// each line of its error output marked `⚠ `, and `✓ done` when it printed
/// nothing at all.
pub open spec fn command_lines(stdout: Seq<char>, stderr: Seq<char>) -> Seq<Seq<char>> {
    lines(stdout) + prefixed("⚠ "@, lines(stderr)) + if stdout.len() == 0 && stderr.len() == 0 {
        seq!["✓ done"@]
    } else {
        Seq::empty()
    }
}

/// Nothing printed means no lines.
proof fn lemma_no_lines()
    ensures
        lines(Seq::<char>::empty()).len() == 0,
{
    reveal_with_fuel(crate::text::split_on, 2);
    assert(crate::text::split_on(Seq::<char>::empty(), '\n') =~= seq![Seq::<char>::empty()]);
}

/// What a finished command shows: first its standard output line by line,
/// then every line of its error output marked `⚠ `, in order; and one line
/// `✓ done` more exactly when it printed nothing at all, which is then all
/// it shows.  A command that wrote anything, to either stream, gets no
/// success mark.
pub proof fn law_output_shown(o: Seq<char>, e: Seq<char>)
    ensures
        command_lines(o, e).len() == lines(o).len() + lines(e).len() + if o.len() == 0 && e.len()
            == 0 {
            1int
        } else {
            0int
        },
        forall|i: int| 0 <= i < lines(o).len() ==> #[trigger] command_lines(o, e)[i] == lines(o)[i],
        forall|i: int|
            0 <= i < lines(e).len() ==> #[trigger] command_lines(o, e)[lines(o).len() + i] == "⚠ "@
                + lines(e)[i],
        o.len() == 0 && e.len() == 0 ==> command_lines(o, e) == seq!["✓ done"@],
{
    lemma_no_lines();
    let c = command_lines(o, e);
    assert forall|i: int| 0 <= i < lines(e).len() implies #[trigger] c[lines(o).len() + i] == "⚠ "@
        + lines(e)[i] by {
        assert(prefixed("⚠ "@, lines(e))[i] == "⚠ "@ + lines(e)[i]);
    }
    if o.len() == 0 && e.len() == 0 {
        assert(c =~= seq!["✓ done"@]);
    }
}

/// The lines shown for a command that ran, given its output and error
/// output.
pub fn output_lines(stdout: &str, stderr: &str) -> (r: Vec<String>)
    ensures
        string_views(r@) == command_lines(stdout@, stderr@),
{
    let out_cs = chars_of(stdout);
    let err_cs = chars_of(stderr);
    let out_ls = split_lines(&out_cs);
    let err_ls = split_lines(&err_cs);
    let mut r: Vec<String> = Vec::new();
    let mut i: usize = 0;
    while i < out_ls.len()
        invariant
            i <= out_ls.len(),
            string_views(r@) == views(out_ls@).take(i as int),
        decreases out_ls.len() - i,
    {
        let s = string_of(&out_ls[i]);
        let ghost old_r = r@;
        r.push(s);
        assert(string_views(r@) =~= string_views(old_r).push(s@));
        assert(views(out_ls@).take(i + 1) =~= views(out_ls@).take(i as int).push(out_ls@[i as int]@));
        i += 1;
    }
    assert(views(out_ls@).take(out_ls.len() as int) =~= views(out_ls@));
    let ghost first = string_views(r@);
    let mut j: usize = 0;
    while j < err_ls.len()
        invariant
            j <= err_ls.len(),
            first == lines(stdout@),
            views(err_ls@) == lines(stderr@),
            string_views(r@) == first + prefixed("⚠ "@, views(err_ls@).take(j as int)),
        decreases err_ls.len() - j,
    {
        let mut s = String::new();
        push_str(&mut s, "⚠ ");
        push_chars(&mut s, &err_ls[j]);
        let ghost old_r = r@;
        r.push(s);
        assert(string_views(r@) =~= string_views(old_r).push(s@));
        assert(prefixed("⚠ "@, views(err_ls@).take(j + 1)) =~= prefixed(
            "⚠ "@,
            views(err_ls@).take(j as int),
        ).push("⚠ "@ + err_ls@[j as int]@));
        j += 1;
    }
    assert(views(err_ls@).take(err_ls.len() as int) =~= views(err_ls@));
    if out_cs.len() == 0 && err_cs.len() == 0 {
        let ghost old_r = r@;
        let d = String::from_str("✓ done");
        r.push(d);
        assert(string_views(r@) =~= string_views(old_r).push("✓ done"@));
        assert(string_views(r@) =~= command_lines(stdout@, stderr@));
    } else {
        assert(string_views(r@) =~= command_lines(stdout@, stderr@));
    }
    r
}

/// What a command that could not be started shows: one line, `✗ ` and the
/// reason.
pub fn failure_lines(reason: &str) -> (r: Vec<String>)
    ensures
        string_views(r@) == seq!["✗ "@ + reason@],
{
    let mut s = String::new();
    push_str(&mut s, "✗ ");
    push_str(&mut s, reason);
    let mut r: Vec<String> = Vec::new();
    r.push(s);
    assert(string_views(r@) =~= seq!["✗ "@ + reason@]);
    r
}

} // verus!
