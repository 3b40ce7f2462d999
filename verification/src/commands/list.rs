//! Listing the gists of the user.
use crate::gists;
use crate::gists::{Gist, GistView};
use crate::output;
use crate::output::{Segment, SegmentView, Tone};
use crate::text;
use vstd::prelude::*;

verus! {

/// What is shown while the gists are fetched.
pub const PROGRESS: &'static str = "Fetching gists...";

/// The line for a gist: its first file as the files are held, whether it is secret, and where it
/// can be seen.
pub open spec fn gist_line(gist: GistView) -> Seq<SegmentView> {
    let name = if gist.names().len() == 0 {
        "(no files)"@
    } else {
        gist.names()[0]
    };
    let visibility = if gist.public {
        " "@
    } else {
        " (secret)"@
    };
    seq![
        output::piece(Tone::Plain, name),
        output::piece(Tone::Dimmed, visibility + " "@ + gist.html_url),
    ]
}

/// The lines to print for the gists.
pub open spec fn listing(gists: Seq<GistView>) -> Seq<Seq<SegmentView>> {
    if gists.len() == 0 {
        seq![seq![output::piece(Tone::Plain, "No gists found."@)]]
    } else {
        gists.map_values(|gist: GistView| gist_line(gist))
    }
}

/// The line for a gist.
fn line_of(gist: &Gist) -> (r: Vec<Segment>)
    ensures
        r.deep_view() == gist_line(gist@),
{
    assert(gist@.names().len() == gist.files@.len());
    let name: &str = if gist.files.len() == 0 {
        "(no files)"
    } else {
        assert(gist@.names()[0] == gist.files@[0].0@);
        gist.files[0].0.as_str()
    };
    let visibility: &str = if gist.public {
        " "
    } else {
        " (secret)"
    };
    let r: Vec<Segment> = vec![
        output::segment(Tone::Plain, name),
        output::segment(
            Tone::Dimmed,
            text::join3(visibility, " ", gist.html_url.as_str()).as_str(),
        ),
    ];
    assert(r.deep_view() =~= gist_line(gist@));
    r
}

/// The lines to print for the gists.
pub fn execute(gists: &Vec<Gist>) -> (r: Vec<Vec<Segment>>)
    ensures
        r.deep_view() == listing(gists::gist_views(gists@)),
{
    let mut lines: Vec<Vec<Segment>> = Vec::new();
    if gists.len() == 0 {
        let line: Vec<Segment> = vec![output::segment(Tone::Plain, "No gists found.")];
        assert(line.deep_view() =~= seq![output::piece(Tone::Plain, "No gists found."@)]);
        lines.push(line);
        assert(lines.deep_view() =~= listing(gists::gist_views(gists@)));
        return lines;
    }
    let ghost views = gists::gist_views(gists@);
    let n: usize = gists.len();
    for i in 0..n
        invariant
            n == gists@.len(),
            views == gists::gist_views(gists@),
            lines@.len() == i,
            forall|j: int| 0 <= j < i ==> lines.deep_view()[j] == gist_line(#[trigger] views[j]),
    {
        assert(views[i as int] == gists@[i as int]@);
        let ghost done = lines.deep_view();
        lines.push(line_of(&gists[i]));
        assert(lines.deep_view() =~= done.push(gist_line(views[i as int])));
    }
    assert(lines.deep_view() =~= listing(views));
    lines
}

/// Each gist has a line of two pieces: its first file and, dimmed, who can see it and where.
pub proof fn law_listing_names_each_gist(gists: Seq<GistView>, i: int)
    requires
        0 <= i < gists.len(),
    ensures
        listing(gists).len() == gists.len(),
        listing(gists)[i].len() == 2,
        listing(gists)[i][0].tone == Tone::Plain,
        listing(gists)[i][1].tone == Tone::Dimmed,
        gists[i].files.len() > 0 ==> listing(gists)[i][0].text == gists[i].files[0].0,
        gists[i].files.len() == 0 ==> listing(gists)[i][0].text == "(no files)"@,
        gists[i].public ==> listing(gists)[i][1].text == " "@ + " "@ + gists[i].html_url,
        !gists[i].public ==> listing(gists)[i][1].text == " (secret)"@ + " "@ + gists[i].html_url,
{
}

/// A listing of no gists says so.
pub proof fn law_empty_listing(gists: Seq<GistView>)
    requires
        gists.len() == 0,
    ensures
        listing(gists).len() == 1,
        listing(gists)[0].len() == 1,
        listing(gists)[0][0].text == "No gists found."@,
        listing(gists)[0][0].tone == Tone::Plain,
{
}

} // verus!
