//! Which text editor to start, and how to name the file that it is started on.
use crate::error::CliError;
use crate::text;
use vstd::prelude::*;
use vstd::string::*;

verus! {

/// The text editor that the environment variable names: an empty value names none.
pub open spec fn editor_in(variable: Option<Seq<char>>) -> Option<Seq<char>> {
    match variable {
        Some(value) => if value.len() > 0 {
            Some(value)
        } else {
            None
        },
        None => None,
    }
}

/// The text editor that the environment variable names.
pub fn editor_command(variable: Option<String>) -> (r: Result<String, CliError>)
    ensures
        match r {
            Ok(editor) => editor_in(variable.deep_view()) == Some(editor@),
            Err(e) => editor_in(variable.deep_view()) is None && e is Api && e.text()
                == "EDITOR is not set"@ && e.advice() is None,
        },
{
    if let Some(value) = variable {
        if !value.as_str().is_empty() {
            return Ok(value);
        }
    }
    Err(CliError::api("EDITOR is not set"))
}

/// The part of a path behind its last slash.
pub open spec fn file_part(path: Seq<char>) -> Seq<char> {
    text::behind_last(path, '/')
}

/// Whether every system takes what follows the last slash of a path as its last component: there is
/// no backslash and no prefix for a drive or a server, and what follows a slash is neither empty
/// nor a dot.
pub open spec fn plain_name(path: Seq<char>) -> bool {
    &&& !path.contains('\\')
    &&& path.len() >= 2 ==> path[1] != ':' && !(path[0] == '/' && path[1] == '/')
    &&& path.contains('/') ==> file_part(path).len() > 0 && file_part(path) != "."@
}

/// The extension of a file name: what follows the last dot, unless there is no dot but at the
/// start. The directory above has none.
pub open spec fn extension_in(name: Seq<char>) -> Option<Seq<char>> {
    if name != ".."@ && exists|i: int| 0 < i < name.len() && #[trigger] name[i] == '.' {
        Some(text::behind_last(name, '.'))
    } else {
        None
    }
}

/// The extension of a file, by `std::path::Path::extension`: the part behind the last dot of the
/// file name, unless that dot is at the start. The file name is what follows the last slash. This
/// is claimed of paths whose last component is the same on every system. Of the others it is left
/// open what the file name is, and claimed only that there is no dot in an extension.
#[verifier::external_body]
fn path_extension(path: &str) -> (r: Option<String>)
    ensures
        plain_name(path@) ==> r.deep_view() == extension_in(file_part(path@)),
        r matches Some(extension) ==> !extension@.contains('.'),
{
    std::path::Path::new(path).extension().and_then(|e| e.to_str()).map(|e| e.to_owned())
}

/// The name of the file that is edited, with the extension `extension`.
pub open spec fn edit_name(process: u32, extension: Seq<char>) -> Seq<char> {
    "gist-edit-"@ + text::decimal(process as nat) + "."@ + extension
}

/// The extension to use: that of the file, or `txt` if it has none.
pub open spec fn kept_extension(extension: Option<Seq<char>>) -> Seq<char> {
    match extension {
        Some(extension) => extension,
        None => "txt"@,
    }
}

/// The name of the file that is edited, given the extension of the file of the gist.
pub fn temp_file_name_with(process: u32, extension: Option<String>) -> (r: String)
    ensures
        r@ == edit_name(process, kept_extension(extension.deep_view())),
{
    let name: String = text::join3("gist-edit-", text::to_decimal(process).as_str(), ".");
    match extension {
        Some(extension) => text::join(name.as_str(), extension.as_str()),
        None => text::join(name.as_str(), "txt"),
    }
}

/// The name of the file that is edited in place of the file `filename` of a gist. It keeps the
/// extension, so that the text editor knows the kind of text.
pub fn temp_file_name(process: u32, filename: &str) -> (r: String)
    ensures
        plain_name(filename@) ==> r@ == edit_name(
            process,
            kept_extension(extension_in(file_part(filename@))),
        ),
        exists|extension: Seq<char>|
            !extension.contains('.') && r@ == #[trigger] edit_name(process, extension),
{
    let extension: Option<String> = path_extension(filename);
    let ghost kept = kept_extension(extension.deep_view());
    proof {
        reveal_strlit("txt");
        assert(!"txt"@.contains('.'));
        assert(!kept.contains('.'));
    }
    let name: String = temp_file_name_with(process, extension);
    assert(name@ == edit_name(process, kept));
    name
}

/// Any value but an empty one names the text editor, as it is.
pub proof fn law_editor_is_taken_as_it_is(value: Seq<char>)
    ensures
        editor_in(None) is None,
        value.len() == 0 ==> editor_in(Some(value)) is None,
        value.len() > 0 ==> editor_in(Some(value)) == Some(value),
{
}

/// A name that ends in a dot and an extension has that extension, whatever comes before. A name
/// without a dot, but for one at its start, has none.
pub proof fn law_extension(stem: Seq<char>, extension: Seq<char>, name: Seq<char>)
    ensures
        stem.len() > 0 && !extension.contains('.') && stem.push('.') + extension != ".."@
            ==> extension_in(stem.push('.') + extension) == Some(extension),
        !name.contains('.') ==> extension_in(name) is None && extension_in(seq!['.'] + name) is None,
        extension_in(".."@) is None,
{
    if stem.len() > 0 && !extension.contains('.') {
        let all = stem.push('.') + extension;
        assert(all[stem.len() as int] == '.');
        text::law_behind_last(stem, '.', extension);
    }
    if !name.contains('.') {
        assert forall|i: int| 0 <= i < name.len() implies name[i] != '.' by {}
        let dotted = seq!['.'] + name;
        assert forall|i: int| 0 < i < dotted.len() implies dotted[i] != '.' by {
            assert(dotted[i] == name[i - 1]);
        }
    }
}

/// The file that is edited has the extension of the file of the gist, in whatever directory that
/// is, and `txt` where it has none.
pub proof fn law_edited_file_keeps_extension(
    process: u32,
    directory: Seq<char>,
    stem: Seq<char>,
    extension: Seq<char>,
)
    requires
        !extension.contains('.'),
        !stem.contains('/'),
        !extension.contains('/'),
    ensures
        ({
            let name = stem.push('.') + extension;
            &&& stem.len() > 0 && name != ".."@ ==> edit_name(
                process,
                kept_extension(extension_in(file_part(name))),
            ) == "gist-edit-"@ + text::decimal(process as nat) + "."@ + extension
            &&& stem.len() > 0 && name != ".."@ ==> extension_in(
                file_part(directory.push('/') + name),
            ) == Some(extension)
            &&& edit_name(process, kept_extension(None)) == "gist-edit-"@ + text::decimal(
                process as nat,
            ) + "."@ + "txt"@
        }),
{
    let name = stem.push('.') + extension;
    assert forall|i: int| 0 <= i < name.len() implies name[i] != '/' by {
        if i < stem.len() {
            assert(stem.contains(stem[i]));
        } else if i > stem.len() {
            assert(name[i] == extension[i - stem.len() - 1]);
            assert(extension.contains(extension[i - stem.len() - 1]));
        }
    }
    assert(!name.contains('/'));
    text::law_behind_last(directory, '/', name);
    law_extension(stem, extension, name);
}

} // verus!
