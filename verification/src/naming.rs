//! File names: which files are images, in which format a file is read and
//! written, and what the output of a source is called.
//!
//! A name is looked at as the bytes of its UTF-8 form.  The dot and the
//! letters that matter are ASCII, and no byte of a longer character is.

use crate::codec::Format;
use vstd::prelude::*;
use vstd::string::StringExecFns;

verus! {

pub const DOT: u8 = 0x2e;

/// The bytes of a name: its UTF-8 form.
pub open spec fn utf8(name: Seq<char>) -> Seq<u8> {
    vstd::utf8::encode_utf8(name)
}

/// The index of the last dot in `name`, if it has one.
pub open spec fn last_dot(name: Seq<u8>) -> Option<int>
    decreases name.len(),
{
    if name.len() == 0 {
        None
    } else if name.last() == DOT {
        Some(name.len() - 1)
    } else {
        last_dot(name.drop_last())
    }
}

/// The extension of a file name: what follows its last dot.  A name without
/// a dot has none, nor has one whose only dot is its first byte.
pub open spec fn extension(name: Seq<u8>) -> Option<Seq<u8>> {
    match last_dot(name) {
        Some(i) => if i > 0 {
            Some(name.subrange(i + 1, name.len() as int))
        } else {
            None
        },
        None => None,
    }
}

/// An ASCII capital as its small letter, any other byte as itself.
pub open spec fn ascii_lower(b: u8) -> u8 {
    if 0x41 <= b <= 0x5a {
        (b + 0x20) as u8
    } else {
        b
    }
}

/// `text` is `word` but for the case of its ASCII letters; `word` is in
/// small letters.
pub open spec fn is_word(text: Seq<u8>, word: Seq<u8>) -> bool {
    &&& text.len() == word.len()
    &&& forall|i: int| 0 <= i < text.len() ==> ascii_lower(#[trigger] text[i]) == word[i]
}

pub open spec fn png_word() -> Seq<u8> {
    seq![0x70u8, 0x6eu8, 0x67u8]
}

pub open spec fn jpg_word() -> Seq<u8> {
    seq![0x6au8, 0x70u8, 0x67u8]
}

pub open spec fn jpeg_word() -> Seq<u8> {
    seq![0x6au8, 0x70u8, 0x65u8, 0x67u8]
}

/// The format in which a source of this name is read: PNG for the extension
/// `png`, JPEG for `jpg` and `jpeg`, in any case of the letters; none for any
/// other name.
pub open spec fn source_format_of(name: Seq<u8>) -> Option<Format> {
    match extension(name) {
        Some(ext) => if is_word(ext, png_word()) {
            Some(Format::Png)
        } else if is_word(ext, jpg_word()) || is_word(ext, jpeg_word()) {
            Some(Format::Jpeg)
        } else {
            None
        },
        None => None,
    }
}

/// The format in which an output of this name is written: PNG for the
/// extension `png` in any case of the letters, JPEG for every other name.
pub open spec fn output_format_of(name: Seq<u8>) -> Format {
    match extension(name) {
        Some(ext) => if is_word(ext, png_word()) {
            Format::Png
        } else {
            Format::Jpeg
        },
        None => Format::Jpeg,
    }
}

/// A file of this name is taken up by a batch: it has one of the extensions
/// `jpg`, `jpeg` and `png`.
pub open spec fn is_candidate_name(name: Seq<u8>) -> bool {
    source_format_of(name) is Some
}

proof fn lemma_last_dot_found(name: Seq<u8>, i: int)
    requires
        0 <= i < name.len(),
        name[i] == DOT,
        forall|j: int| i < j < name.len() ==> name[j] != DOT,
    ensures
        last_dot(name) == Some(i),
    decreases name.len(),
{
    if i < name.len() - 1 {
        lemma_last_dot_found(name.drop_last(), i);
    }
}

proof fn lemma_last_dot_missing(name: Seq<u8>)
    requires
        forall|j: int| 0 <= j < name.len() ==> name[j] != DOT,
    ensures
        last_dot(name) is None,
    decreases name.len(),
{
    if name.len() > 0 {
        lemma_last_dot_missing(name.drop_last());
    }
}

proof fn lemma_last_dot_after_prefix(prefix: Seq<u8>, name: Seq<u8>)
    requires
        last_dot(name) is Some,
    ensures
        last_dot(prefix + name) == Some(prefix.len() + last_dot(name)->0),
    decreases name.len(),
{
    let whole = prefix + name;
    assert(whole.last() == name.last());
    if name.last() != DOT {
        assert(whole.drop_last() =~= prefix + name.drop_last());
        lemma_last_dot_after_prefix(prefix, name.drop_last());
    }
}

proof fn lemma_last_dot_bound(name: Seq<u8>)
    ensures
        last_dot(name) matches Some(i) ==> 0 <= i < name.len(),
    decreases name.len(),
{
    if name.len() > 0 && name.last() != DOT {
        lemma_last_dot_bound(name.drop_last());
    }
}

/// The bytes of two names joined are the bytes of the first followed by the
/// bytes of the second.
pub proof fn lemma_utf8_concat(first: Seq<char>, second: Seq<char>)
    ensures
        utf8(first + second) == utf8(first) + utf8(second),
    decreases first.len(),
{
    if first.len() == 0 {
        assert(first + second =~= second);
        assert(utf8(first) + utf8(second) =~= utf8(second));
    } else {
        let whole = first + second;
        assert(whole.drop_first() =~= first.drop_first() + second);
        assert(whole[0] == first[0]);
        lemma_utf8_concat(first.drop_first(), second);
        let head = vstd::utf8::encode_scalar(first[0] as u32);
        assert(head + (utf8(first.drop_first()) + utf8(second)) =~= (head + utf8(
            first.drop_first(),
        )) + utf8(second));
    }
}

/// The output of a source that a batch takes up is written in the format in
/// which the source was read, whatever the prefix: PNG stays PNG and JPEG
/// stays JPEG.
pub proof fn lemma_output_keeps_format(prefix: Seq<char>, file_name: Seq<char>)
    requires
        is_candidate_name(utf8(file_name)),
    ensures
        output_format_of(utf8(prefix + file_name)) == source_format_of(utf8(file_name))->0,
{
    let name = utf8(file_name);
    let head = utf8(prefix);
    lemma_utf8_concat(prefix, file_name);
    lemma_last_dot_after_prefix(head, name);
    lemma_last_dot_bound(name);
    let i = last_dot(name)->0;
    let ext = extension(name)->0;
    assert((head + name).subrange(head.len() + i + 1, (head + name).len() as int) =~= ext);
    if is_word(ext, jpg_word()) || is_word(ext, jpeg_word()) {
        assert(ascii_lower(ext[1]) == 0x70);
        assert(png_word()[1] == 0x6e);
    }
}

fn lower(b: u8) -> (r: u8)
    ensures
        r == ascii_lower(b),
{
    if 0x41 <= b && b <= 0x5a {
        b + 0x20
    } else {
        b
    }
}

/// Where the extension of `name` starts, if it has one.
fn extension_start(name: &[u8]) -> (r: Option<usize>)
    ensures
        match r {
            Some(start) => start <= name@.len() && extension(name@) == Some(
                name@.subrange(start as int, name@.len() as int),
            ),
            None => extension(name@) is None,
        },
{
    let mut i: usize = name.len();
    while i > 0
        invariant
            i <= name@.len(),
            forall|j: int| i <= j < name@.len() ==> name@[j] != DOT,
        decreases i,
    {
        i = i - 1;
        if name[i] == DOT {
            proof {
                lemma_last_dot_found(name@, i as int);
            }
            if i > 0 {
                return Some(i + 1);
            } else {
                return None;
            }
        }
    }
    proof {
        lemma_last_dot_missing(name@);
    }
    None
}

fn matches_png(name: &[u8], start: usize) -> (r: bool)
    requires
        start <= name@.len(),
    ensures
        r == is_word(name@.subrange(start as int, name@.len() as int), png_word()),
{
    let ghost ext = name@.subrange(start as int, name@.len() as int);
    if name.len() - start != 3 {
        return false;
    }
    let r = lower(name[start]) == 0x70 && lower(name[start + 1]) == 0x6e && lower(name[start + 2])
        == 0x67;
    proof {
        assert(ext[0] == name@[start as int]);
        assert(ext[1] == name@[start + 1]);
        assert(ext[2] == name@[start + 2]);
    }
    r
}

fn matches_jpg(name: &[u8], start: usize) -> (r: bool)
    requires
        start <= name@.len(),
    ensures
        r == is_word(name@.subrange(start as int, name@.len() as int), jpg_word()),
{
    let ghost ext = name@.subrange(start as int, name@.len() as int);
    if name.len() - start != 3 {
        return false;
    }
    let r = lower(name[start]) == 0x6a && lower(name[start + 1]) == 0x70 && lower(name[start + 2])
        == 0x67;
    proof {
        assert(ext[0] == name@[start as int]);
        assert(ext[1] == name@[start + 1]);
        assert(ext[2] == name@[start + 2]);
    }
    r
}

fn matches_jpeg(name: &[u8], start: usize) -> (r: bool)
    requires
        start <= name@.len(),
    ensures
        r == is_word(name@.subrange(start as int, name@.len() as int), jpeg_word()),
{
    let ghost ext = name@.subrange(start as int, name@.len() as int);
    if name.len() - start != 4 {
        return false;
    }
    let r = lower(name[start]) == 0x6a && lower(name[start + 1]) == 0x70 && lower(name[start + 2])
        == 0x65 && lower(name[start + 3]) == 0x67;
    proof {
        assert(ext[0] == name@[start as int]);
        assert(ext[1] == name@[start + 1]);
        assert(ext[2] == name@[start + 2]);
        assert(ext[3] == name@[start + 3]);
    }
    r
}

/// The format in which a source of this name is read, if it is one of the
/// two that are read.
pub fn source_format(name: &str) -> (r: Option<Format>)
    ensures
        r == source_format_of(utf8(name@)),
{
    let bytes = name.as_bytes();
    match extension_start(bytes) {
        Some(start) => {
            if matches_png(bytes, start) {
                Some(Format::Png)
            } else if matches_jpg(bytes, start) || matches_jpeg(bytes, start) {
                Some(Format::Jpeg)
            } else {
                None
            }
        },
        None => None,
    }
}

/// The format in which an output of this name is written.
pub fn output_format(name: &str) -> (r: Format)
    ensures
        r == output_format_of(utf8(name@)),
{
    let bytes = name.as_bytes();
    match extension_start(bytes) {
        Some(start) => {
            if matches_png(bytes, start) {
                Format::Png
            } else {
                Format::Jpeg
            }
        },
        None => Format::Jpeg,
    }
}

/// Tells whether a batch takes up a file of this name.
pub fn is_candidate(name: &str) -> (r: bool)
    ensures
        r == is_candidate_name(utf8(name@)),
{
    source_format(name).is_some()
}

/// One source and the name under which its output is written.
#[derive(Clone, Debug)]
pub struct ImageTask {
    pub input_name: String,
    pub output_name: String,
}

impl ImageTask {
    /// The task for the source `file_name`: its output is named by the
    /// prefix followed by the source's own name, extension and all.
    pub fn new(file_name: &str, prefix: &str) -> (task: ImageTask)
        ensures
            task.input_name@ == file_name@,
            task.output_name@ == prefix@ + file_name@,
    {
        let mut output_name = prefix.to_owned();
        output_name.append(file_name);
        ImageTask { input_name: file_name.to_owned(), output_name }
    }
}

} // verus!
