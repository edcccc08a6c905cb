//! Names of levels and of the files that hold them.

use vstd::prelude::*;

verus! {

/// `text` ends with `suffix`.
pub open spec fn ends_with(text: Seq<char>, suffix: Seq<char>) -> bool {
    suffix.len() <= text.len() && text.subrange(text.len() - suffix.len(), text.len() as int)
        == suffix
}

/// `text` with every `from` replaced by `to`.
pub open spec fn replaced(text: Seq<char>, from: char, to: Seq<char>) -> Seq<char>
    decreases text.len(),
{
    if text.len() == 0 {
        text
    } else if text.last() == from {
        replaced(text.drop_last(), from, to) + to
    } else {
        replaced(text.drop_last(), from, to).push(text.last())
    }
}

/// `text` without `suffix` at its end, if it ends with it.
pub open spec fn without_suffix(text: Seq<char>, suffix: Seq<char>) -> Seq<char> {
    if ends_with(text, suffix) {
        text.subrange(0, text.len() - suffix.len())
    } else {
        text
    }
}

/// The name under which a level file is shown: without the extension `.yol`,
/// with spaces for underscores.
pub open spec fn formatted_level_name(filename: Seq<char>) -> Seq<char> {
    replaced(without_suffix(filename, ".yol"@), '_', " "@)
}

/// The file of the level called `name`: the name itself if it has the
/// extension `.yol` already, else the name with that extension.
pub open spec fn level_file(name: Seq<char>) -> Seq<char> {
    if ends_with(name, ".yol"@) {
        name
    } else {
        name + ".yol"@
    }
}

/// Calls `str::ends_with` with a string pattern: whether the pattern is a
/// suffix of the text.
#[verifier::external_body]
fn str_ends_with(text: &str, suffix: &str) -> (found: bool)
    ensures
        found == ends_with(text@, suffix@),
{
    text.ends_with(suffix)
}

/// Calls `str::strip_suffix` with a string pattern: the text before the
/// suffix if the text ends with it, and nothing otherwise.
#[verifier::external_body]
fn str_strip_suffix<'a>(text: &'a str, suffix: &str) -> (stem: Option<&'a str>)
    ensures
        match stem {
            Some(stem) => ends_with(text@, suffix@) && stem@ == text@.subrange(
                0,
                text@.len() - suffix@.len(),
            ),
            None => !ends_with(text@, suffix@),
        },
{
    text.strip_suffix(suffix)
}

/// Calls `str::replace` with a character pattern: the text with every
/// occurrence of the character replaced by `to`.
#[verifier::external_body]
fn str_replace(text: &str, from: char, to: &str) -> (result: String)
    ensures
        result@ == replaced(text@, from, to@),
{
    text.replace(from, to)
}

/// Gives the name under which a level file is shown.
pub fn format_level_name(filename: &str) -> (name: String)
    ensures
        name@ == formatted_level_name(filename@),
{
    let stem = match str_strip_suffix(filename, ".yol") {
        Some(stem) => stem,
        None => filename,
    };
    str_replace(stem, '_', " ")
}

/// Gives the file of the level called `name`.
pub fn level_file_name(name: &str) -> (filename: String)
    ensures
        filename@ == level_file(name@),
{
    if str_ends_with(name, ".yol") {
        name.to_owned()
    } else {
        name.to_owned().concat(".yol")
    }
}

/// A level is shown under the same name whether or not it is given with the
/// extension `.yol`.
pub proof fn lemma_extension_does_not_show(name: Seq<char>)
    ensures
        formatted_level_name(level_file(name)) == formatted_level_name(name),
        ends_with(level_file(name), ".yol"@),
{
    let suffix = ".yol"@;
    if !ends_with(name, suffix) {
        let file = name + suffix;
        assert(file.subrange(file.len() - suffix.len(), file.len() as int) == suffix);
        assert(file.subrange(0, file.len() - suffix.len()) == name);
    }
}

} // verus!
