//! The differ: two texts held against each other line by line, and the
//! lines that only one of them has written out with a sign in front.

use crate::checkfile::{check_text, DocumentError};
use crate::generate::{generate_checkfile, generated};
use crate::module::{Module, ModuleView};
use crate::risk::RiskBounds;
use crate::text::same_text;
use vstd::prelude::*;
use vstd::string::*;

verus! {

/// The escape sequence that turns the following text red.
pub const RED: &'static str = "\x1b[31m";

/// The escape sequence that turns the following text green.
pub const GREEN: &'static str = "\x1b[32m";

/// The escape sequence that ends a colour.
pub const RESET: &'static str = "\x1b[0m";

/// What became of a line between the old text and the new one.
#[derive(Clone, Copy, Debug, PartialEq, Eq, Structural)]
pub enum ChangeTag {
    /// The line stands in both texts.
    Equal,
    /// The line stands in the old text only.
    Delete,
    /// The line stands in the new text only.
    Insert,
}

/// One line of a comparison.
#[derive(Clone, Debug, PartialEq, Eq)]
pub struct LineChange {
    pub tag: ChangeTag,
    /// The line as it stands in its text, with the line break that ends it.
    pub text: String,
    /// Whether the line lacks a line break at its end.
    pub missing_newline: bool,
}

/// A `LineChange` as contracts speak of it.
pub struct LineChangeView {
    pub tag: ChangeTag,
    pub text: Seq<char>,
    pub missing_newline: bool,
}

impl View for LineChange {
    type V = LineChangeView;

    open spec fn view(&self) -> LineChangeView {
        LineChangeView { tag: self.tag, text: self.text@, missing_newline: self.missing_newline }
    }
}

/// The views of a list of changes.
pub open spec fn change_views(changes: Seq<LineChange>) -> Seq<LineChangeView> {
    changes.map_values(|c: LineChange| c@)
}

/// The lines of a comparison of `old` with `new` as `similar` makes it:
/// what `TextDiff::from_lines` finds, in the order of `iter_all_changes`.
pub uninterp spec fn line_changes(old: Seq<char>, new: Seq<char>) -> Seq<LineChangeView>;

/// The old text as the changes spell it: the lines that are not inserted,
/// in a row.
pub open spec fn old_side(changes: Seq<LineChangeView>) -> Seq<char>
    decreases changes.len(),
{
    if changes.len() == 0 {
        Seq::empty()
    } else if changes.last().tag is Insert {
        old_side(changes.drop_last())
    } else {
        old_side(changes.drop_last()) + changes.last().text
    }
}

/// The new text as the changes spell it: the lines that are not deleted,
/// in a row.
pub open spec fn new_side(changes: Seq<LineChangeView>) -> Seq<char>
    decreases changes.len(),
{
    if changes.len() == 0 {
        Seq::empty()
    } else if changes.last().tag is Delete {
        new_side(changes.drop_last())
    } else {
        new_side(changes.drop_last()) + changes.last().text
    }
}

/// Calls `similar::TextDiff::from_lines` on the two texts and lists what
/// `iter_all_changes` yields: of each change its tag, its line, and whether
/// `missing_newline` holds of it. The list is taken to depend on the two
/// texts alone. Of its content the contract claims what makes it a
/// comparison of these texts: the lines that are not inserted spell the old
/// text, and those that are not deleted spell the new one.
#[verifier::external_body]
fn diff_lines(old: &str, new: &str) -> (r: Vec<LineChange>)
    ensures
        change_views(r@) == line_changes(old@, new@),
        old_side(change_views(r@)) == old@,
        new_side(change_views(r@)) == new@,
{
    similar::TextDiff::from_lines(old, new).iter_all_changes().map(
        |change| LineChange {
            tag: match change.tag() {
                similar::ChangeTag::Equal => ChangeTag::Equal,
                similar::ChangeTag::Delete => ChangeTag::Delete,
                similar::ChangeTag::Insert => ChangeTag::Insert,
            },
            text: change.value().to_string(),
            missing_newline: change.missing_newline(),
        },
    ).collect()
}

/// `text` between the escape sequence of a colour and the one that ends it.
pub open spec fn painted(text: Seq<char>, colour: Seq<char>) -> Seq<char> {
    colour + text + RESET@
}

/// A line with the line break that it may lack.
pub open spec fn completed(change: LineChangeView) -> Seq<char> {
    if change.missing_newline {
        change.text + "\n"@
    } else {
        change.text
    }
}

/// A sign and a line the way a changed line is written: in colour, the sign
/// and the line each between escape sequences; plain, the sign and then the
/// completed line.
pub open spec fn signed_line(
    sign: Seq<char>,
    colour: Seq<char>,
    change: LineChangeView,
    color_term: bool,
) -> Seq<char> {
    if color_term {
        painted(sign, colour) + painted(change.text, colour)
    } else {
        sign + completed(change)
    }
}

/// One line of a comparison as the differ writes it: `- ` before a deleted
/// line, `+ ` before an inserted one, two spaces before an unchanged one,
/// which is written only with context and never in colour.
pub open spec fn written_line(change: LineChangeView, color_term: bool, with_context: bool) -> Seq<
    char,
> {
    match change.tag {
        ChangeTag::Delete => signed_line("- "@, RED@, change, color_term),
        ChangeTag::Insert => signed_line("+ "@, GREEN@, change, color_term),
        ChangeTag::Equal => if with_context {
            "  "@ + completed(change)
        } else {
            Seq::empty()
        },
    }
}

/// All lines of a comparison as the differ writes them, in a row.
pub open spec fn written(changes: Seq<LineChangeView>, color_term: bool, with_context: bool) -> Seq<
    char,
>
    decreases changes.len(),
{
    if changes.len() == 0 {
        Seq::empty()
    } else {
        written(changes.drop_last(), color_term, with_context) + written_line(
            changes.last(),
            color_term,
            with_context,
        )
    }
}

/// Whether any line was deleted or inserted.
pub open spec fn any_change(changes: Seq<LineChangeView>) -> bool {
    exists|i: int| 0 <= i < changes.len() && !((#[trigger] changes[i]).tag is Equal)
}

/// What the differ makes of a comparison: nothing where no line was
/// deleted or inserted, and otherwise all lines as it writes them.
pub open spec fn rendering(changes: Seq<LineChangeView>, color_term: bool, with_context: bool) -> Seq<
    char,
> {
    if any_change(changes) {
        written(changes, color_term, with_context)
    } else {
        Seq::empty()
    }
}

/// The comparison of `old` with `new` spells both texts: its lines that are
/// not inserted, in a row, are the old text, and those that are not deleted
/// the new one.
pub open spec fn spells_both(old: Seq<char>, new: Seq<char>) -> bool {
    &&& old_side(line_changes(old, new)) == old
    &&& new_side(line_changes(old, new)) == new
}

/// The difference of two texts: nothing where they are the same, and
/// otherwise the rendering of their comparison.
pub open spec fn text_diff(old: Seq<char>, new: Seq<char>, color_term: bool, with_context: bool) -> Seq<
    char,
> {
    if old == new {
        Seq::empty()
    } else {
        rendering(line_changes(old, new), color_term, with_context)
    }
}

/// Changes without a deleted or an inserted line spell the same text on
/// both sides.
pub proof fn lemma_unchanged_sides_agree(changes: Seq<LineChangeView>)
    requires
        !any_change(changes),
    ensures
        old_side(changes) == new_side(changes),
    decreases changes.len(),
{
    if changes.len() > 0 {
        let shorter = changes.drop_last();
        assert forall|i: int| 0 <= i < shorter.len() implies (#[trigger] shorter[i]).tag is Equal by {
            assert(shorter[i] == changes[i]);
        }
        lemma_unchanged_sides_agree(shorter);
        assert(changes[changes.len() - 1].tag is Equal);
    }
}

/// Where a line was deleted or inserted, what the differ writes is not
/// empty.
pub proof fn lemma_changes_are_written(
    changes: Seq<LineChangeView>,
    color_term: bool,
    with_context: bool,
)
    requires
        any_change(changes),
    ensures
        written(changes, color_term, with_context).len() > 0,
    decreases changes.len(),
{
    reveal_strlit("- ");
    reveal_strlit("+ ");
    let last = changes.last();
    if last.tag is Equal {
        let shorter = changes.drop_last();
        let i = choose|i: int| 0 <= i < changes.len() && !((#[trigger] changes[i]).tag is Equal);
        assert(shorter[i] == changes[i]);
        lemma_changes_are_written(shorter, color_term, with_context);
    } else {
        assert(written_line(last, color_term, with_context).len() >= 2);
    }
}

fn paint(out: &mut String, text: &str, colour: &'static str)
    ensures
        final(out)@ == old(out)@ + painted(text@, colour@),
{
    out.append(colour);
    out.append(text);
    out.append(RESET);
    assert(out@ =~= old(out)@ + painted(text@, colour@));
}

fn write_completed(out: &mut String, change: &LineChange)
    ensures
        final(out)@ == old(out)@ + completed(change@),
{
    out.append(change.text.as_str());
    if change.missing_newline {
        out.append("\n");
    }
    assert(out@ =~= old(out)@ + completed(change@));
}

fn write_signed(
    out: &mut String,
    sign: &'static str,
    colour: &'static str,
    change: &LineChange,
    color_term: bool,
)
    ensures
        final(out)@ == old(out)@ + signed_line(sign@, colour@, change@, color_term),
{
    if color_term {
        paint(out, sign, colour);
        paint(out, change.text.as_str(), colour);
    } else {
        out.append(sign);
        write_completed(out, change);
    }
    assert(out@ =~= old(out)@ + signed_line(sign@, colour@, change@, color_term));
}

/// Writes out a comparison: every deleted line after `- `, every inserted
/// line after `+ `, and with context every unchanged line after two
/// spaces; in colour, deleted lines in red and inserted ones in green.
/// Where no line was deleted or inserted, nothing is written at all.
pub fn render(changes: &Vec<LineChange>, color_term: bool, with_context: bool) -> (r: String)
    ensures
        r@ == rendering(change_views(changes@), color_term, with_context),
{
    let ghost all = change_views(changes@);
    let mut output = String::new();
    let mut changed = false;
    let mut i: usize = 0;
    while i < changes.len()
        invariant
            i <= changes@.len(),
            all == change_views(changes@),
            output@ == written(all.take(i as int), color_term, with_context),
            changed == any_change(all.take(i as int)),
        decreases changes@.len() - i,
    {
        let ghost before = all.take(i as int);
        let ghost now = all.take(i + 1);
        assert(now.drop_last() =~= before);
        assert(now.last() == changes@[i as int]@);
        let change = &changes[i];
        match change.tag {
            ChangeTag::Delete => {
                write_signed(&mut output, "- ", RED, change, color_term);
            },
            ChangeTag::Insert => {
                write_signed(&mut output, "+ ", GREEN, change, color_term);
            },
            ChangeTag::Equal => {
                if with_context {
                    output.append("  ");
                    write_completed(&mut output, change);
                }
            },
        }
        assert(output@ =~= written(now, color_term, with_context));
        proof {
            if any_change(before) {
                let k = choose|k: int| 0 <= k < before.len() && !((#[trigger] before[k]).tag is Equal);
                assert(now[k] == before[k]);
            }
            if !(change.tag is Equal) {
                assert(!(now[i as int].tag is Equal));
            }
            if any_change(now) {
                let k = choose|k: int| 0 <= k < now.len() && !((#[trigger] now[k]).tag is Equal);
                if k < i {
                    assert(before[k] == now[k]);
                }
            }
        }
        changed = changed || !matches!(change.tag, ChangeTag::Equal);
        i += 1;
    }
    assert(all.take(i as int) =~= all);
    if changed {
        output
    } else {
        String::new()
    }
}

/// The difference of two texts, written out line by line.
#[derive(Debug, Clone, PartialEq, Eq)]
pub struct Diff(String);

impl View for Diff {
    type V = Seq<char>;

    closed spec fn view(&self) -> Seq<char> {
        self.0@
    }
}

/// The difference of two modules: that of the texts of the policies that
/// are generated for them, where both policies can be written as text.
pub open spec fn module_diff(
    a: ModuleView,
    b: ModuleView,
    color_term: bool,
    with_context: bool,
    bounds: RiskBounds,
    a_size: Seq<char>,
    b_size: Seq<char>,
) -> Option<Seq<char>> {
    match (
        check_text(generated(a, bounds, a_size).validate),
        check_text(generated(b, bounds, b_size).validate),
    ) {
        (Some(x), Some(y)) => Some(text_diff(x, y, color_term, with_context)),
        _ => None,
    }
}

impl Diff {
    /// Holds two modules against each other: a policy is generated for
    /// each, both are written as text, and the texts are compared line by
    /// line. `a_size` and `b_size` are the sizes of the modules as they are
    /// shown to a person. The outcome is empty where the two policies are
    /// written as the same text, and only there; for one module held
    /// against itself it is always empty. Where the texts differ, the lines
    /// of their comparison spell both.
    pub fn new(
        a: &Module,
        b: &Module,
        color_term: bool,
        with_context: bool,
        bounds: &RiskBounds,
        a_size: &str,
        b_size: &str,
    ) -> (r: Result<Diff, DocumentError>)
        ensures
            match module_diff(a@, b@, color_term, with_context, *bounds, a_size@, b_size@) {
                Some(text) => r is Ok && r->Ok_0@ == text,
                None => r is Err,
            },
            r is Ok ==> (r->Ok_0@.len() == 0 <==> check_text(
                generated(a@, *bounds, a_size@).validate,
            ) == check_text(generated(b@, *bounds, b_size@).validate)),
            r is Ok && a@ == b@ && a_size@ == b_size@ ==> r->Ok_0@.len() == 0,
            r is Ok && check_text(generated(a@, *bounds, a_size@).validate) != check_text(
                generated(b@, *bounds, b_size@).validate,
            ) ==> spells_both(
                check_text(generated(a@, *bounds, a_size@).validate)->0,
                check_text(generated(b@, *bounds, b_size@).validate)->0,
            ),
    {
        let old = generate_checkfile(a, bounds, a_size).validate.write()?;
        let new = generate_checkfile(b, bounds, b_size).validate.write()?;
        Ok(Diff::of_texts(old.as_str(), new.as_str(), color_term, with_context))
    }

    /// Holds two texts against each other. The outcome is empty for equal
    /// texts and for no others. For unequal texts it is made of the lines
    /// of their comparison, and these spell both texts.
    pub fn of_texts(old: &str, new: &str, color_term: bool, with_context: bool) -> (r: Diff)
        ensures
            r@ == text_diff(old@, new@, color_term, with_context),
            r@.len() == 0 <==> old@ == new@,
            old@ != new@ ==> spells_both(old@, new@),
    {
        if same_text(old, new) {
            return Diff(String::new());
        }
        let changes = diff_lines(old, new);
        let output = render(&changes, color_term, with_context);
        proof {
            let views = change_views(changes@);
            if !any_change(views) {
                lemma_unchanged_sides_agree(views);
            }
            lemma_changes_are_written(views, color_term, with_context);
        }
        Diff(output)
    }

    /// The difference as text.
    pub fn as_str(&self) -> (r: &str)
        ensures
            r@ == self@,
    {
        self.0.as_str()
    }

    /// The difference as an owned string.
    pub fn to_string(&self) -> (r: String)
        ensures
            r@ == self@,
    {
        self.0.clone()
    }

    /// Whether the two texts were the same.
    pub fn is_empty(&self) -> (r: bool)
        ensures
            r == (self@.len() == 0),
    {
        self.0.as_str().is_empty()
    }
}

} // verus!
