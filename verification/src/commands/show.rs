//! Showing the files of a gist.
use crate::gists::{Gist, GistView};
use crate::output;
use crate::output::{Segment, SegmentView, Tone};
use crate::text;
use vstd::prelude::*;

verus! {

/// What is shown while the gist is fetched.
pub const PROGRESS: &'static str = "Fetching gist...";

/// A part of what is printed.
#[derive(Debug)]
pub enum Part {
    /// A line to standard error.
    Heading(Vec<Segment>),
    /// A text to standard output, as it is.
    Text(String),
}

/// What a [`Part`] holds.
pub enum PartView {
    Heading(Seq<SegmentView>),
    Text(Seq<char>),
}

impl View for Part {
    type V = PartView;

    open spec fn view(&self) -> PartView {
        match self {
            Part::Heading(line) => PartView::Heading(line.deep_view()),
            Part::Text(text) => PartView::Text(text@),
        }
    }
}

/// The views of the parts.
pub open spec fn part_views(parts: Seq<Part>) -> Seq<PartView> {
    parts.map_values(|p: Part| p@)
}

/// The line above the text of a file.
pub open spec fn heading(name: Seq<char>) -> Seq<SegmentView> {
    seq![output::piece(Tone::Dimmed, "--- "@ + name + " ---"@)]
}

/// The parts for the first `n` files of a gist, as the files are held: a heading for each if the
/// gist has several, and its text where there is one.
pub open spec fn parts_of(gist: GistView, n: int) -> Seq<PartView>
    decreases n,
{
    if n <= 0 {
        Seq::empty()
    } else {
        let (name, file) = gist.files[n - 1];
        let above = if gist.files.len() > 1 {
            seq![PartView::Heading(heading(name))]
        } else {
            Seq::empty()
        };
        let text = match file.content {
            Some(content) => seq![PartView::Text(content)],
            None => Seq::empty(),
        };
        parts_of(gist, n - 1) + above + text
    }
}

/// What to print for a gist.
pub fn execute(gist: &Gist) -> (r: Vec<Part>)
    ensures
        part_views(r@) == parts_of(gist@, gist@.files.len() as int),
{
    let mut parts: Vec<Part> = Vec::new();
    let n: usize = gist.files.len();
    assert(part_views(parts@) =~= parts_of(gist@, 0));
    for i in 0..n
        invariant
            n == gist.files@.len(),
            n == gist@.files.len(),
            part_views(parts@) == parts_of(gist@, i as int),
    {
        let ghost done = part_views(parts@);
        let name: &String = &gist.files[i].0;
        assert(gist@.files[i as int] == (name@, gist.files@[i as int].1@));
        if n > 1 {
            let line: Vec<Segment> = vec![
                output::segment(
                    Tone::Dimmed,
                    text::join3("--- ", name.as_str(), " ---").as_str(),
                ),
            ];
            assert(line.deep_view() =~= heading(name@));
            parts.push(Part::Heading(line));
            assert(part_views(parts@) =~= done + seq![PartView::Heading(heading(name@))]);
        }
        let ghost headed = part_views(parts@);
        if let Some(content) = &gist.files[i].1.content {
            parts.push(Part::Text(content.clone()));
            assert(part_views(parts@) =~= headed + seq![PartView::Text(content@)]);
        }
        assert(part_views(parts@) =~= parts_of(gist@, i + 1));
    }
    parts
}

/// The texts among the parts, one behind the other.
pub open spec fn printed(parts: Seq<PartView>) -> Seq<char>
    decreases parts.len(),
{
    if parts.len() == 0 {
        Seq::empty()
    } else {
        printed(parts.drop_last()) + match parts.last() {
            PartView::Text(text) => text,
            PartView::Heading(_) => Seq::empty(),
        }
    }
}

/// The known texts of the first `n` files of a gist, one behind the other.
pub open spec fn texts_of(gist: GistView, n: int) -> Seq<char>
    decreases n,
{
    if n <= 0 {
        Seq::empty()
    } else {
        texts_of(gist, n - 1) + match gist.files[n - 1].1.content {
            Some(content) => content,
            None => Seq::empty(),
        }
    }
}

/// The texts among the parts for the first `n` files are the texts of those files.
proof fn lemma_texts_alone_are_printed(gist: GistView, n: int)
    requires
        0 <= n <= gist.files.len(),
    ensures
        printed(parts_of(gist, n)) == texts_of(gist, n),
    decreases n,
{
    if n > 0 {
        lemma_texts_alone_are_printed(gist, n - 1);
        let (name, file) = gist.files[n - 1];
        let before = parts_of(gist, n - 1);
        let above = if gist.files.len() > 1 {
            seq![PartView::Heading(heading(name))]
        } else {
            Seq::empty()
        };
        let headed = before + above;
        if gist.files.len() > 1 {
            assert(headed.drop_last() =~= before);
            assert(headed.last() == PartView::Heading(heading(name)));
            assert(printed(headed) =~= printed(before));
        } else {
            assert(headed =~= before);
        }
        match file.content {
            Some(content) => {
                let all = headed + seq![PartView::Text(content)];
                assert(all.drop_last() =~= headed);
                assert(all.last() == PartView::Text(content));
            },
            None => {
                assert(headed + Seq::<PartView>::empty() =~= headed);
                assert(texts_of(gist, n) =~= texts_of(gist, n - 1));
            },
        }
    }
}

/// Standard output receives the known texts of the files and nothing else.
pub proof fn law_texts_alone_are_printed(gist: GistView)
    ensures
        printed(parts_of(gist, gist.files.len() as int)) == texts_of(gist, gist.files.len() as int),
{
    lemma_texts_alone_are_printed(gist, gist.files.len() as int);
}

/// Whether a part is a heading.
pub open spec fn is_heading() -> spec_fn(PartView) -> bool {
    |p: PartView| p is Heading
}

/// The part that names a file.
pub open spec fn names_file(part: PartView, name: Seq<char>) -> bool {
    part == PartView::Heading(
        seq![SegmentView { tone: Tone::Dimmed, text: "--- "@ + name + " ---"@ }],
    )
}

/// The number of headings among the first `i` parts.
pub open spec fn headings_before(parts: Seq<PartView>, i: int) -> nat {
    parts.take(i).filter(is_heading()).len()
}

/// Whether the heading of file `k` is part `i`, and what follows it is the text of the file if there
/// is one, and otherwise the next heading or nothing.
pub open spec fn heads_file(parts: Seq<PartView>, gist: GistView, k: int, i: int) -> bool {
    &&& 0 <= i < parts.len()
    &&& headings_before(parts, i) == k
    &&& names_file(parts[i], gist.files[k].0)
    &&& match gist.files[k].1.content {
        Some(content) => i + 1 < parts.len() && parts[i + 1] == PartView::Text(content),
        None => i + 1 == parts.len() || parts[i + 1] is Heading,
    }
}

/// The number of parts for the first `n` files.
proof fn lemma_parts_grow(gist: GistView, n: int, m: int)
    requires
        0 <= n <= m <= gist.files.len(),
    ensures
        parts_of(gist, n).len() <= parts_of(gist, m).len(),
        parts_of(gist, n) == parts_of(gist, m).take(parts_of(gist, n).len() as int),
    decreases m,
{
    let part = parts_of(gist, n);
    let all = parts_of(gist, m);
    if n < m {
        lemma_parts_grow(gist, n, m - 1);
        let before = parts_of(gist, m - 1);
        assert(before =~= all.take(before.len() as int));
        assert(part =~= all.take(part.len() as int));
    } else {
        assert(part =~= all.take(part.len() as int));
    }
}

/// How many headings and texts stand among the parts for the first `n` files.
proof fn lemma_heading_count(gist: GistView, n: int)
    requires
        0 <= n <= gist.files.len(),
    ensures
        parts_of(gist, n).filter(is_heading()).len() == if gist.files.len() > 1 {
            n
        } else {
            0
        },
    decreases n,
{
    let p = is_heading();
    if n > 0 {
        lemma_heading_count(gist, n - 1);
        let (name, file) = gist.files[n - 1];
        let before = parts_of(gist, n - 1);
        let above: Seq<PartView> = if gist.files.len() > 1 {
            seq![PartView::Heading(heading(name))]
        } else {
            Seq::empty()
        };
        let text: Seq<PartView> = match file.content {
            Some(content) => seq![PartView::Text(content)],
            None => Seq::empty(),
        };
        assert(parts_of(gist, n) == before + above + text);
        Seq::filter_distributes_over_add(before + above, text, p);
        Seq::filter_distributes_over_add(before, above, p);
        reveal_with_fuel(Seq::filter, 2);
        assert(text.filter(p).len() == 0) by {
            if text.len() > 0 {
                assert(text.drop_last() =~= Seq::<PartView>::empty());
            }
        }
        assert(above.filter(p).len() == above.len()) by {
            if above.len() > 0 {
                assert(above.drop_last() =~= Seq::<PartView>::empty());
            }
        }
    } else {
        reveal(Seq::filter);
    }
}

/// With two files or more there is one heading for each file, with its name, directly in front of
/// its text. With one file or none there is no heading.
pub proof fn law_headings_tell_files_apart(gist: GistView, parts: Seq<PartView>, k: int)
    requires
        parts == parts_of(gist, gist.files.len() as int),
    ensures
        gist.files.len() >= 2 ==> parts.filter(is_heading()).len() == gist.files.len(),
        gist.files.len() >= 2 && 0 <= k < gist.files.len() ==> exists|i: int|
            #[trigger] heads_file(parts, gist, k, i),
        gist.files.len() < 2 ==> forall|i: int| 0 <= i < parts.len() ==> #[trigger] parts[i] is Text,
{
    let n = gist.files.len() as int;
    lemma_heading_count(gist, n);
    if n >= 2 && 0 <= k < n {
        let before = parts_of(gist, k);
        let upto = parts_of(gist, k + 1);
        let i = before.len() as int;
        lemma_parts_grow(gist, k, n);
        lemma_parts_grow(gist, k + 1, n);
        lemma_heading_count(gist, k);
        assert(parts.take(i) == before);
        assert(upto[i] == PartView::Heading(heading(gist.files[k].0)));
        assert(parts[i] == upto[i]);
        assert(heading(gist.files[k].0) =~= seq![
            SegmentView { tone: Tone::Dimmed, text: "--- "@ + gist.files[k].0 + " ---"@ },
        ]);
        match gist.files[k].1.content {
            Some(content) => {
                assert(upto[i + 1] == PartView::Text(content));
                assert(parts[i + 1] == upto[i + 1]);
            },
            None => {
                assert(upto.len() == i + 1);
                if k + 1 < n {
                    let next = parts_of(gist, k + 2);
                    lemma_parts_grow(gist, k + 2, n);
                    assert(next[i + 1] == PartView::Heading(heading(gist.files[k + 1].0)));
                    assert(parts[i + 1] == next[i + 1]);
                }
            },
        }
        assert(heads_file(parts, gist, k, i));
    }
    if n < 2 {
        if n == 1 {
            assert(parts_of(gist, 0) =~= Seq::<PartView>::empty());
            assert(parts_of(gist, 1) =~= match gist.files[0].1.content {
                Some(content) => seq![PartView::Text(content)],
                None => Seq::empty(),
            });
        }
    }
}

/// The texts among the parts are the known texts of the files, one part each, in the order of the
/// files.
pub proof fn law_each_text_is_one_part(gist: GistView, n: int)
    requires
        0 <= n < gist.files.len(),
    ensures
        parts_of(gist, 0).len() == 0,
        parts_of(gist, n + 1).filter(|p: PartView| p is Text) == parts_of(gist, n).filter(
            |p: PartView| p is Text,
        ) + match gist.files[n].1.content {
            Some(content) => seq![PartView::Text(content)],
            None => Seq::empty(),
        },
{
    let p = |p: PartView| p is Text;
    let (name, file) = gist.files[n];
    let before = parts_of(gist, n);
    let above: Seq<PartView> = if gist.files.len() > 1 {
        seq![PartView::Heading(heading(name))]
    } else {
        Seq::empty()
    };
    let text: Seq<PartView> = match file.content {
        Some(content) => seq![PartView::Text(content)],
        None => Seq::empty(),
    };
    assert(parts_of(gist, n + 1) == before + above + text);
    Seq::filter_distributes_over_add(before + above, text, p);
    Seq::filter_distributes_over_add(before, above, p);
    reveal_with_fuel(Seq::filter, 2);
    assert(text.filter(p) =~= text) by {
        if text.len() > 0 {
            assert(text.drop_last() =~= Seq::<PartView>::empty());
        }
    }
    assert(above.filter(p) =~= Seq::<PartView>::empty()) by {
        if above.len() > 0 {
            assert(above.drop_last() =~= Seq::<PartView>::empty());
        }
    }
    assert(before.filter(p) + Seq::<PartView>::empty() + text =~= before.filter(p) + text);
}

} // verus!
