//! Coloured text: the lines of a file with the colours of its syntax.
use crate::editing;
use syntect::easy::HighlightLines;
use syntect::highlighting::{Theme, ThemeSet};
use syntect::parsing::{SyntaxReference, SyntaxSet};
use syntect::util::LinesWithEndings;
use vstd::prelude::*;

verus! {

/// A collection of syntaxes.
#[verifier::external_type_specification]
#[verifier::external_body]
pub struct ExSyntaxSet(SyntaxSet);

/// A syntax of a collection.
#[verifier::external_type_specification]
#[verifier::external_body]
pub struct ExSyntaxReference(SyntaxReference);

/// A choice of colours.
#[verifier::external_type_specification]
#[verifier::external_body]
pub struct ExTheme(Theme);

/// A highlighter in the middle of a text.
#[verifier::external_type_specification]
#[verifier::external_body]
pub struct ExHighlightLines<'a>(HighlightLines<'a>);

/// A piece of text in one colour.
#[derive(Debug)]
pub struct StyledText {
    pub red: u8,
    pub green: u8,
    pub blue: u8,
    pub text: String,
}

/// What a [`StyledText`] holds.
pub struct StyledTextView {
    pub red: u8,
    pub green: u8,
    pub blue: u8,
    pub text: Seq<char>,
}

impl View for StyledText {
    type V = StyledTextView;

    open spec fn view(&self) -> StyledTextView {
        StyledTextView { red: self.red, green: self.green, blue: self.blue, text: self.text@ }
    }
}

impl DeepView for StyledText {
    type V = StyledTextView;

    open spec fn deep_view(&self) -> StyledTextView {
        self@
    }
}

/// The length of the first line of `s`, its line feed counted.
pub open spec fn first_line_len(s: Seq<char>) -> int
    decreases s.len(),
{
    if s.len() == 0 {
        0
    } else if s[0] == '\n' {
        1
    } else {
        1 + first_line_len(s.drop_first())
    }
}

/// The length of the first line lies within the text, and a text has a first line.
pub proof fn lemma_first_line_len(s: Seq<char>)
    ensures
        0 <= first_line_len(s) <= s.len(),
        s.len() > 0 ==> first_line_len(s) > 0,
    decreases s.len(),
{
    if s.len() > 0 && s[0] != '\n' {
        lemma_first_line_len(s.drop_first());
    }
}

/// The lines of a text, each with its line feed.
pub open spec fn lines_of(s: Seq<char>) -> Seq<Seq<char>>
    decreases s.len(),
{
    if s.len() == 0 {
        Seq::empty()
    } else {
        proof {
            lemma_first_line_len(s);
        }
        let n = first_line_len(s);
        seq![s.subrange(0, n)] + lines_of(s.subrange(n, s.len() as int))
    }
}

/// The colours that are used.
pub const THEME: &'static str = "base16-eighties.dark";

/// Whether a collection is the one that comes with the highlighter.
pub uninterp spec fn bundled(set: SyntaxSet) -> bool;

/// The syntaxes of a collection.
pub uninterp spec fn syntaxes_in(set: SyntaxSet) -> Seq<SyntaxReference>;

/// The syntax for plain text of a collection.
pub uninterp spec fn plain_text_in(set: SyntaxSet) -> Option<SyntaxReference>;

/// The syntax of a collection for files with an extension.
pub uninterp spec fn syntax_for_extension(
    set: SyntaxSet,
    extension: Seq<char>,
) -> Option<SyntaxReference>;

/// The highlighter at the start of a text.
pub uninterp spec fn highlighter_at_start(
    syntax: SyntaxReference,
    theme: Theme,
) -> HighlightLines<'static>;

/// The highlighter behind a line, and the pieces of the line if it could be parsed.
pub uninterp spec fn highlighted_line(
    highlighter: HighlightLines<'_>,
    line: Seq<char>,
    set: SyntaxSet,
) -> (HighlightLines<'_>, Option<Seq<StyledTextView>>);

/// The colours with the name `name` among those that come with the highlighter.
pub uninterp spec fn theme_named(name: Seq<char>) -> Option<Theme>;

/// The extension of a file name, or an empty one.
pub open spec fn extension_or_empty(name: Seq<char>) -> Seq<char> {
    match editing::extension_in(name) {
        Some(extension) => extension,
        None => Seq::empty(),
    }
}

/// Whether every system takes what follows the last slash of a path as the name of a file.
pub open spec fn names_a_file(path: Seq<char>) -> bool {
    editing::plain_name(path) && editing::file_part(path) != "."@ && editing::file_part(path)
        != ".."@
}

/// The syntax that the name of a file alone decides: the one for which the whole name is an
/// extension, or else the one for the extension of the name.
pub open spec fn syntax_by_name(set: SyntaxSet, name: Seq<char>) -> Option<SyntaxReference> {
    match syntax_for_extension(set, name) {
        Some(syntax) => Some(syntax),
        None => syntax_for_extension(set, extension_or_empty(name)),
    }
}

/// Whether a syntax can be the one that is found for a file: the one that the name decides, if it
/// decides one, otherwise any, or none.
pub open spec fn may_be_found(
    set: SyntaxSet,
    filename: Seq<char>,
    found: Option<SyntaxReference>,
) -> bool {
    &&& found matches Some(syntax) ==> syntaxes_in(set).contains(syntax)
    &&& names_a_file(filename) && syntax_by_name(set, editing::file_part(filename)) is Some
        ==> found == syntax_by_name(set, editing::file_part(filename))
}

/// The highlighter behind the lines `lines`.
pub open spec fn highlighter_behind(
    set: SyntaxSet,
    syntax: SyntaxReference,
    theme: Theme,
    lines: Seq<Seq<char>>,
) -> HighlightLines<'static>
    decreases lines.len(),
{
    if lines.len() == 0 {
        highlighter_at_start(syntax, theme)
    } else {
        highlighted_line(
            highlighter_behind(set, syntax, theme, lines.drop_last()),
            lines.last(),
            set,
        ).0
    }
}

/// The pieces of line `i` of `lines`; none for a line that could not be parsed.
pub open spec fn styled_line(
    set: SyntaxSet,
    syntax: SyntaxReference,
    theme: Theme,
    lines: Seq<Seq<char>>,
    i: int,
) -> Seq<StyledTextView> {
    match highlighted_line(
        highlighter_behind(set, syntax, theme, lines.take(i)),
        lines[i],
        set,
    ).1 {
        Some(pieces) => pieces,
        None => Seq::empty(),
    }
}

/// The texts of the pieces, one behind the other.
pub open spec fn joined(pieces: Seq<StyledTextView>) -> Seq<char>
    decreases pieces.len(),
{
    if pieces.len() == 0 {
        Seq::empty()
    } else {
        joined(pieces.drop_last()) + pieces.last().text
    }
}

/// Whether coloured lines keep a text: there is one for each line of the text, and it is the line
/// or the beginning of it.
pub open spec fn keeps_text(lines: Seq<Seq<StyledTextView>>, content: Seq<char>) -> bool {
    &&& lines.len() == lines_of(content).len()
    &&& forall|i: int|
        0 <= i < lines.len() ==> joined(#[trigger] lines[i]).is_prefix_of(lines_of(content)[i])
}

/// The lines of a text in the colours of a syntax.
pub open spec fn styled_text(
    set: SyntaxSet,
    syntax: SyntaxReference,
    theme: Theme,
    content: Seq<char>,
) -> Seq<Seq<StyledTextView>> {
    let lines = lines_of(content);
    Seq::new(lines.len(), |i: int| styled_line(set, syntax, theme, lines, i))
}

/// Cuts a text into lines by `syntect::util::LinesWithEndings`: a line ends behind each line feed,
/// and at the end of the text.
#[verifier::external_body]
fn split_lines(content: &str) -> (r: Vec<&str>)
    ensures
        r.deep_view() == lines_of(content@),
{
    LinesWithEndings::from(content).collect()
}

/// Loads the syntaxes that come with the highlighter, for lines with line feeds, by
/// `syntect::parsing::SyntaxSet::load_defaults_newlines`. Plain text is among them.
#[verifier::external_body]
fn load_syntaxes() -> (r: SyntaxSet)
    ensures
        bundled(r),
        plain_text_in(r) is Some,
{
    SyntaxSet::load_defaults_newlines()
}

/// Loads colours that come with the highlighter by `syntect::highlighting::ThemeSet::load_defaults`.
/// The name decides them, and those named `base16-eighties.dark` are among them.
#[verifier::external_body]
fn load_theme(name: &str) -> (r: Option<Theme>)
    ensures
        r == theme_named(name@),
        name@ == "base16-eighties.dark"@ ==> r is Some,
{
    ThemeSet::load_defaults().themes.remove(name)
}

/// Finds the syntax for plain text by `syntect::parsing::SyntaxSet::find_syntax_plain_text`. The
/// collection decides it, and has to have it.
#[verifier::external_body]
fn find_plain_text<'a>(set: &'a SyntaxSet) -> (r: &'a SyntaxReference)
    requires
        plain_text_in(*set) is Some,
    ensures
        plain_text_in(*set) == Some(*r),
        syntaxes_in(*set).contains(*r),
{
    set.find_syntax_plain_text()
}

/// Finds the syntax for a file by `syntect::parsing::SyntaxSet::find_syntax_for_file`: first one
/// for which the file name is an extension, secondly one for the extension of the file name.
/// Failing both, the first line of the file on disk that has this path, if there is one, decides;
/// nothing is claimed of what is found in that way but that the collection has it. Nor is it
/// claimed which part of a path is the file name, where systems differ on that.
#[verifier::external_body]
fn find_for_file<'a>(set: &'a SyntaxSet, filename: &str) -> (r: Option<&'a SyntaxReference>)
    requires
        bundled(*set),
    ensures
        r matches Some(syntax) ==> syntaxes_in(*set).contains(*syntax),
        names_a_file(filename@) ==> match (
            syntax_for_extension(*set, editing::file_part(filename@)),
            syntax_for_extension(*set, extension_or_empty(editing::file_part(filename@))),
        ) {
            (Some(syntax), _) => r matches Some(found) && *found == syntax,
            (None, Some(syntax)) => r matches Some(found) && *found == syntax,
            (None, None) => true,
        },
{
    set.find_syntax_for_file(filename).ok().flatten()
}

/// Starts a text by `syntect::easy::HighlightLines::new`. The syntax and the colours decide the
/// highlighter. The syntax has to be one of those that come with the highlighter.
#[verifier::external_body]
fn start_text<'a>(syntax: &SyntaxReference, theme: &'a Theme) -> (r: HighlightLines<'a>)
    requires
        exists|set: SyntaxSet| #[trigger] bundled(set) && syntaxes_in(set).contains(*syntax),
    ensures
        r == highlighter_at_start(*syntax, *theme),
{
    HighlightLines::new(syntax, theme)
}

/// Highlights the next line by `syntect::easy::HighlightLines::highlight_line`, and takes over the
/// foreground colours. The highlighter, the line and the collection decide the pieces and the
/// highlighter behind the line. The texts of the pieces, one behind the other, are the line or the
/// beginning of it. The collection has to be the one that the syntax came from. It is not claimed
/// that the pieces reach the end of the line: they stop where the scopes of the line do not fit
/// together.
#[verifier::external_body]
fn highlight_line(highlighter: &mut HighlightLines<'_>, line: &str, set: &SyntaxSet) -> (r: Option<
    Vec<StyledText>,
>)
    requires
        bundled(*set),
        exists|syntax: SyntaxReference, theme: Theme, lines: Seq<Seq<char>>|
            syntaxes_in(*set).contains(syntax) && *old(highlighter)
                == #[trigger] highlighter_behind(*set, syntax, theme, lines),
    ensures
        *final(highlighter) == highlighted_line(*old(highlighter), line@, *set).0,
        r.deep_view() == highlighted_line(*old(highlighter), line@, *set).1,
        r.deep_view() matches Some(pieces) ==> joined(pieces).is_prefix_of(line@),
{
    let ranges = highlighter.highlight_line(line, set).ok()?;
    let piece = |(style, text): (syntect::highlighting::Style, &str)| StyledText {
        red: style.foreground.r,
        green: style.foreground.g,
        blue: style.foreground.b,
        text: text.to_owned(),
    };
    Some(ranges.into_iter().map(piece).collect())
}

/// The pieces of a line, given those that the highlighter found: none if it found none.
pub fn pieces_or_none(found: Option<Vec<StyledText>>) -> (r: Vec<StyledText>)
    ensures
        r.deep_view() == match found.deep_view() {
            Some(pieces) => pieces,
            None => Seq::empty(),
        },
{
    match found {
        Some(pieces) => pieces,
        None => {
            let r: Vec<StyledText> = Vec::new();
            assert(r.deep_view() =~= Seq::<StyledTextView>::empty());
            r
        },
    }
}

/// Syntaxes and colours to highlight with.
pub struct Highlighting {
    set: SyntaxSet,
    theme: Theme,
}

impl Highlighting {
    /// The syntaxes come with the highlighter, and there is one to fall back on.
    #[verifier::type_invariant]
    spec fn well_formed(self) -> bool {
        bundled(self.set) && plain_text_in(self.set) is Some
    }

    /// The syntaxes.
    pub closed spec fn syntaxes(self) -> SyntaxSet {
        self.set
    }

    /// The colours.
    pub closed spec fn colours(self) -> Theme {
        self.theme
    }

    /// The syntax to use, given the one that was found for a file: plain text if none was found.
    pub open spec fn syntax_to_use(self, found: Option<SyntaxReference>) -> SyntaxReference {
        match found {
            Some(syntax) => syntax,
            None => plain_text_in(self.syntaxes()).unwrap(),
        }
    }

    /// Whether `lines` can be the coloured lines of a file.
    pub open spec fn may_show(
        self,
        filename: Seq<char>,
        content: Seq<char>,
        lines: Seq<Seq<StyledTextView>>,
    ) -> bool {
        &&& keeps_text(lines, content)
        &&& exists|found: Option<SyntaxReference>|
            may_be_found(self.syntaxes(), filename, found) && lines == #[trigger] styled_text(
                self.syntaxes(),
                self.syntax_to_use(found),
                self.colours(),
                content,
            )
    }

    /// Takes the syntaxes that come with the highlighter and the colours named [`THEME`].
    pub fn load() -> (r: Highlighting)
        ensures
            bundled(r.syntaxes()),
            plain_text_in(r.syntaxes()) is Some,
            theme_named(THEME@) == Some(r.colours()),
    {
        Highlighting { set: load_syntaxes(), theme: load_theme(THEME).unwrap() }
    }

    /// The lines of a text in the colours of the syntax `syntax`, or of plain text if there is
    /// none.
    pub fn highlight_as(&self, syntax: Option<&SyntaxReference>, content: &str) -> (r: Vec<
        Vec<StyledText>,
    >)
        requires
            syntax matches Some(syntax) ==> syntaxes_in(self.syntaxes()).contains(*syntax),
        ensures
            r.deep_view() == styled_text(
                self.syntaxes(),
                self.syntax_to_use(
                    match syntax {
                        Some(syntax) => Some(*syntax),
                        None => None,
                    },
                ),
                self.colours(),
                content@,
            ),
            keeps_text(r.deep_view(), content@),
    {
        proof {
            use_type_invariant(self);
        }
        let used: &SyntaxReference = match syntax {
            Some(syntax) => syntax,
            None => find_plain_text(&self.set),
        };
        let ghost lines = lines_of(content@);
        let ghost all = styled_text(self.set, *used, self.theme, content@);
        let source: Vec<&str> = split_lines(content);
        let mut highlighter: HighlightLines<'_> = start_text(used, &self.theme);
        let mut r: Vec<Vec<StyledText>> = Vec::new();
        let n: usize = source.len();
        assert(source.deep_view().len() == n);
        assert(lines.take(0) =~= Seq::<Seq<char>>::empty());
        assert(r.deep_view() =~= all.take(0));
        for i in 0..n
            invariant
                n == source@.len(),
                source.deep_view() == lines,
                all == styled_text(self.set, *used, self.theme, content@),
                lines == lines_of(content@),
                bundled(self.set),
                syntaxes_in(self.set).contains(*used),
                highlighter == highlighter_behind(
                    self.set,
                    *used,
                    self.theme,
                    lines.take(i as int),
                ),
                r.deep_view() == all.take(i as int),
                forall|j: int|
                    0 <= j < i ==> joined(#[trigger] r.deep_view()[j]).is_prefix_of(lines[j]),
        {
            assert(lines[i as int] == source@[i as int]@);
            let pieces: Vec<StyledText> = pieces_or_none(
                highlight_line(&mut highlighter, source[i], &self.set),
            );
            let ghost done = r.deep_view();
            assert(joined(pieces.deep_view()).is_prefix_of(lines[i as int]));
            r.push(pieces);
            proof {
                assert(lines.take(i + 1).drop_last() =~= lines.take(i as int));
                assert(lines.take(i + 1).last() == lines[i as int]);
                assert(r.deep_view() =~= done.push(pieces.deep_view()));
                assert(all.take(i + 1) =~= all.take(i as int).push(all[i as int]));
            }
        }
        assert(all.take(n as int) =~= all);
        r
    }

    /// The lines of a file in the colours of its syntax.
    pub fn highlight_content(&self, filename: &str, content: &str) -> (r: Vec<Vec<StyledText>>)
        ensures
            self.may_show(filename@, content@, r.deep_view()),
    {
        proof {
            use_type_invariant(self);
        }
        let found: Option<&SyntaxReference> = find_for_file(&self.set, filename);
        assert(may_be_found(
            self.set,
            filename@,
            match found {
                Some(syntax) => Some(*syntax),
                None => None,
            },
        ));
        self.highlight_as(found, content)
    }
}

/// The lines of a text put together are the text.
pub proof fn law_lines_make_the_text(s: Seq<char>)
    ensures
        lines_of(s).flatten() == s,
    decreases s.len(),
{
    if s.len() == 0 {
        assert(lines_of(s).flatten() =~= s);
    } else {
        lemma_first_line_len(s);
        let n = first_line_len(s);
        let rest = s.subrange(n, s.len() as int);
        law_lines_make_the_text(rest);
        assert(lines_of(s).first() == s.subrange(0, n));
        assert(lines_of(s).drop_first() =~= lines_of(rest));
        assert(s.subrange(0, n) + rest =~= s);
    }
}

/// A line feed before the end of the first line would end it.
proof fn lemma_first_line_feed(s: Seq<char>)
    ensures
        forall|i: int| 0 <= i < first_line_len(s) - 1 ==> #[trigger] s[i] != '\n',
        first_line_len(s) < s.len() ==> s[first_line_len(s) - 1] == '\n',
    decreases s.len(),
{
    lemma_first_line_len(s);
    if s.len() > 0 && s[0] != '\n' {
        let rest = s.drop_first();
        lemma_first_line_feed(rest);
        lemma_first_line_len(rest);
        assert forall|i: int| 0 <= i < first_line_len(s) - 1 implies #[trigger] s[i] != '\n' by {
            if i > 0 {
                assert(s[i] == rest[i - 1]);
            }
        }
        if first_line_len(s) < s.len() {
            assert(s[first_line_len(s) - 1] == rest[first_line_len(rest) - 1]);
        }
    }
}

/// No line is empty, a line feed stands only at the end of a line, and every line but the last
/// ends in one.
pub proof fn law_line_feeds_end_lines(s: Seq<char>, i: int)
    requires
        0 <= i < lines_of(s).len(),
    ensures
        lines_of(s)[i].len() > 0,
        forall|j: int|
            0 <= j < lines_of(s)[i].len() - 1 ==> #[trigger] lines_of(s)[i][j] != '\n',
        i < lines_of(s).len() - 1 ==> lines_of(s)[i].last() == '\n',
    decreases s.len(),
{
    lemma_first_line_len(s);
    lemma_first_line_feed(s);
    let n = first_line_len(s);
    let rest = s.subrange(n, s.len() as int);
    if i > 0 {
        law_line_feeds_end_lines(rest, i - 1);
        assert(lines_of(s)[i] == lines_of(rest)[i - 1]);
    } else {
        assert(lines_of(s)[0] == s.subrange(0, n));
        assert(lines_of(s).len() == 1 + lines_of(rest).len());
        if rest.len() == 0 {
            assert(lines_of(rest).len() == 0);
        }
    }
}

/// Where the name of a file decides the syntax, two looks at the file give the same colours.
pub proof fn law_known_names_are_coloured_alike(
    highlighting: Highlighting,
    filename: Seq<char>,
    content: Seq<char>,
    a: Seq<Seq<StyledTextView>>,
    b: Seq<Seq<StyledTextView>>,
)
    requires
        names_a_file(filename),
        syntax_by_name(highlighting.syntaxes(), editing::file_part(filename)) is Some,
        highlighting.may_show(filename, content, a),
        highlighting.may_show(filename, content, b),
    ensures
        a == b,
{
}

/// The texts of pieces are joined in order, each once.
pub proof fn law_joining(pieces: Seq<StyledTextView>, piece: StyledTextView)
    ensures
        joined(Seq::empty()) == Seq::<char>::empty(),
        joined(pieces.push(piece)) == joined(pieces) + piece.text,
{
    assert(pieces.push(piece).drop_last() =~= pieces);
}

/// The lines are highlighted one after the other, by a highlighter that starts anew for the text and
/// goes on from line to line. A line that could not be parsed has no pieces.
pub proof fn law_highlighter_goes_on(
    set: SyntaxSet,
    syntax: SyntaxReference,
    theme: Theme,
    content: Seq<char>,
)
    ensures
        ({
            let lines = lines_of(content);
            let shown = styled_text(set, syntax, theme, content);
            &&& shown.len() == lines.len()
            &&& exists|states: Seq<HighlightLines<'static>>|
                #![trigger states.len()]
                {
                    &&& states.len() == lines.len() + 1
                    &&& states[0] == highlighter_at_start(syntax, theme)
                    &&& forall|i: int|
                        0 <= i < lines.len() ==> {
                            let step = highlighted_line(#[trigger] states[i], lines[i], set);
                            &&& states[i + 1] == step.0
                            &&& step.1 matches Some(pieces) ==> shown[i] == pieces
                            &&& step.1 is None ==> shown[i].len() == 0
                        }
                }
        }),
{
    let lines = lines_of(content);
    let shown = styled_text(set, syntax, theme, content);
    let states = Seq::new(
        lines.len() + 1,
        |i: int| highlighter_behind(set, syntax, theme, lines.take(i)),
    );
    assert(lines.take(0) =~= Seq::<Seq<char>>::empty());
    assert(states[0] == highlighter_at_start(syntax, theme));
    assert forall|i: int| 0 <= i < lines.len() implies {
        let step = highlighted_line(#[trigger] states[i], lines[i], set);
        &&& states[i + 1] == step.0
        &&& step.1 matches Some(pieces) ==> shown[i] == pieces
        &&& step.1 is None ==> shown[i].len() == 0
    } by {
        assert(lines.take(i + 1).drop_last() =~= lines.take(i));
        assert(lines.take(i + 1).last() == lines[i]);
        assert(states[i + 1] == highlighter_behind(set, syntax, theme, lines.take(i + 1)));
        assert(shown[i] == styled_line(set, syntax, theme, lines, i));
    }
    assert(states.len() == lines.len() + 1);
}

/// A file is coloured by the syntax for which its whole name is an extension, failing that by the
/// one for its extension, in whatever directory it is.
pub proof fn law_name_decides_the_syntax(
    highlighting: Highlighting,
    directory: Seq<char>,
    name: Seq<char>,
    filename: Seq<char>,
    content: Seq<char>,
    lines: Seq<Seq<StyledTextView>>,
    syntax: SyntaxReference,
)
    requires
        highlighting.may_show(filename, content, lines),
        !name.contains('/'),
        filename == name || filename == directory.push('/') + name,
        names_a_file(filename),
        syntax_for_extension(highlighting.syntaxes(), name) == Some(syntax) || (
        syntax_for_extension(highlighting.syntaxes(), name) is None && match editing::extension_in(
            name,
        ) {
            Some(extension) => syntax_for_extension(highlighting.syntaxes(), extension) == Some(
                syntax,
            ),
            None => syntax_for_extension(highlighting.syntaxes(), Seq::empty()) == Some(syntax),
        }),
    ensures
        lines == styled_text(highlighting.syntaxes(), syntax, highlighting.colours(), content),
{
    crate::text::law_behind_last(directory, '/', name);
}

/// What is shown is in the colours of plain text, or of a syntax of the collection, and keeps the
/// text.
pub proof fn law_plain_text_is_the_fallback(
    highlighting: Highlighting,
    filename: Seq<char>,
    content: Seq<char>,
    lines: Seq<Seq<StyledTextView>>,
)
    requires
        highlighting.may_show(filename, content, lines),
    ensures
        lines.len() == lines_of(content).len(),
        forall|i: int|
            0 <= i < lines.len() ==> joined(#[trigger] lines[i]).is_prefix_of(lines_of(content)[i]),
        exists|syntax: SyntaxReference|
            (syntaxes_in(highlighting.syntaxes()).contains(syntax) || plain_text_in(
                highlighting.syntaxes(),
            ) == Some(syntax) || plain_text_in(highlighting.syntaxes()) is None) && lines
                == #[trigger] styled_text(
                highlighting.syntaxes(),
                syntax,
                highlighting.colours(),
                content,
            ),
        plain_text_in(highlighting.syntaxes()) matches Some(plain) ==> highlighting.syntax_to_use(
            None,
        ) == plain,
{
    let found = choose|found: Option<SyntaxReference>|
        may_be_found(highlighting.syntaxes(), filename, found) && lines == #[trigger] styled_text(
            highlighting.syntaxes(),
            highlighting.syntax_to_use(found),
            highlighting.colours(),
            content,
        );
    let used = highlighting.syntax_to_use(found);
    assert(lines == styled_text(highlighting.syntaxes(), used, highlighting.colours(), content));
}

} // verus!
