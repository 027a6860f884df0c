//! Where a converted file goes: `<directory>/<name>.<extension>`, or, when that
//! path is already taken, `<directory>/<name> (<token>).<extension>` with a
//! random token of sixteen letters and digits.
//!
//! A path is held as the bytes that the system knows it by, so that a name
//! which is no text passes through as it is.

use fastrand::Rng;
use vstd::prelude::*;
use vstd::slice::slice_to_vec;

use crate::rng::next_alphanumeric;
use crate::text::is_alphanumeric;

verus! {

/// The number of characters in a collision token.
pub const TOKEN_LENGTH: usize = 16;

/// The byte that parts a directory from what is in it, `/`.
pub const SEPARATOR: u8 = 0x2f;

/// The view of an optional run of bytes.
pub open spec fn optional_bytes(s: Option<&[u8]>) -> Option<Seq<u8>> {
    match s {
        Some(t) => Some(t@),
        None => None,
    }
}

/// The contents of each of `items`, in their order.
pub open spec fn each_view(items: Seq<Vec<u8>>) -> Seq<Seq<u8>> {
    Seq::new(items.len(), |i: int| items[i]@)
}

/// The name of an output file: the name of the file it is made from, the
/// token between ` (` and `)` if there is one, a dot and the extension.
pub open spec fn file_name_bytes(
    name: Seq<u8>,
    token: Option<Seq<u8>>,
    extension: Seq<u8>,
) -> Seq<u8> {
    match token {
        Some(t) => name + seq![0x20u8, 0x28u8] + t + seq![0x29u8, 0x2eu8] + extension,
        None => name + seq![0x2eu8] + extension,
    }
}

/// A directory and a file name as one path: a `/` goes between them unless the
/// directory is empty or already ends in one.
pub open spec fn joined(directory: Seq<u8>, file: Seq<u8>) -> Seq<u8> {
    if directory.len() == 0 || directory.last() == SEPARATOR {
        directory + file
    } else {
        directory + seq![SEPARATOR] + file
    }
}

/// The path of an output file in its directory.
pub open spec fn output_path_bytes(
    directory: Seq<u8>,
    name: Seq<u8>,
    token: Option<Seq<u8>>,
    extension: Seq<u8>,
) -> Seq<u8> {
    joined(directory, file_name_bytes(name, token, extension))
}

/// Whether `token` is sixteen bytes, each an ASCII letter or digit.
pub open spec fn is_collision_token(token: Seq<u8>) -> bool {
    &&& token.len() == TOKEN_LENGTH
    &&& forall|i: int| 0 <= i < token.len() ==> is_alphanumeric((#[trigger] token[i]) as char)
}

/// Whether `path` is an output path for `name` that carries some collision token.
pub open spec fn is_scrambled_path(
    path: Seq<u8>,
    directory: Seq<u8>,
    name: Seq<u8>,
    extension: Seq<u8>,
) -> bool {
    exists|token: Seq<u8>| #[trigger]
        is_collision_token(token) && path == output_path_bytes(
            directory,
            name,
            Some(token),
            extension,
        )
}

/// Appends `more` to `out`.
pub fn append_bytes(out: &mut Vec<u8>, more: &[u8])
    ensures
        final(out)@ == old(out)@ + more@,
{
    let mut copied: usize = 0;
    while copied < more.len()
        invariant
            copied <= more@.len(),
            out@ == old(out)@ + more@.take(copied as int),
        decreases more@.len() - copied,
    {
        out.push(more[copied]);
        copied = copied + 1;
        assert(more@.take(copied as int) == more@.take(copied - 1).push(more@[copied - 1]));
    }
    assert(more@.take(more@.len() as int) == more@);
}

/// Builds the name of an output file from its parts.
pub fn output_file_name(name: &[u8], token: Option<&[u8]>, extension: &[u8]) -> (file: Vec<u8>)
    ensures
        file@ == file_name_bytes(name@, optional_bytes(token), extension@),
{
    let mut file = slice_to_vec(name);
    match token {
        Some(t) => {
            file.push(0x20);
            file.push(0x28);
            append_bytes(&mut file, t);
            file.push(0x29);
        },
        None => {},
    }
    file.push(0x2e);
    append_bytes(&mut file, extension);
    file
}

/// Puts a file name under a directory.
pub fn join(directory: &[u8], file: &[u8]) -> (path: Vec<u8>)
    ensures
        path@ == joined(directory@, file@),
{
    let mut path = slice_to_vec(directory);
    let length = directory.len();
    if length > 0 && directory[length - 1] != SEPARATOR {
        path.push(SEPARATOR);
    }
    append_bytes(&mut path, file);
    path
}

/// Builds the path of an output file from its parts, the token being given.
pub fn output_path(directory: &[u8], name: &[u8], token: Option<&[u8]>, extension: &[u8]) -> (path:
    Vec<u8>)
    ensures
        path@ == output_path_bytes(directory@, name@, optional_bytes(token), extension@),
{
    let file = output_file_name(name, token, extension);
    join(directory, file.as_slice())
}

/// Draws a collision token: sixteen random letters and digits.
pub fn collision_token(rng: &mut Rng) -> (token: Vec<u8>)
    ensures
        is_collision_token(token@),
{
    let mut token: Vec<u8> = Vec::new();
    let mut drawn: usize = 0;
    while drawn < TOKEN_LENGTH
        invariant
            drawn <= TOKEN_LENGTH,
            token@.len() == drawn,
            forall|i: int| 0 <= i < token@.len() ==> is_alphanumeric((#[trigger] token@[i]) as char),
        decreases TOKEN_LENGTH - drawn,
    {
        let c = next_alphanumeric(rng);
        token.push(c as u8);
        drawn = drawn + 1;
    }
    token
}

/// Builds the path of an output file, drawing a collision token when `with_rand`
/// asks for one. Without it the generator is left untouched.
pub fn build_output_path(
    rng: &mut Rng,
    directory: &[u8],
    filename: &[u8],
    with_rand: bool,
    extension: &[u8],
) -> (path: Vec<u8>)
    ensures
        with_rand ==> is_scrambled_path(path@, directory@, filename@, extension@),
        !with_rand ==> path@ == output_path_bytes(directory@, filename@, None, extension@),
        !with_rand ==> *final(rng) == *old(rng),
{
    if with_rand {
        let token = collision_token(rng);
        output_path(directory, filename, Some(token.as_slice()), extension)
    } else {
        output_path(directory, filename, None, extension)
    }
}

/// An output that had to make way never lands on the path it made way for: a
/// path that carries a collision token differs from the path without one.
pub proof fn scrambled_path_avoids_candidate(
    path: Seq<u8>,
    directory: Seq<u8>,
    name: Seq<u8>,
    extension: Seq<u8>,
)
    requires
        is_scrambled_path(path, directory, name, extension),
    ensures
        path != output_path_bytes(directory, name, None, extension),
{
    let token = choose|token: Seq<u8>| #[trigger]
        is_collision_token(token) && path == output_path_bytes(
            directory,
            name,
            Some(token),
            extension,
        );
    let with_token = file_name_bytes(name, Some(token), extension);
    let without = file_name_bytes(name, None, extension);
    assert(with_token.len() == without.len() + TOKEN_LENGTH + 3);
    assert(joined(directory, with_token).len() == joined(directory, without).len() + TOKEN_LENGTH
        + 3);
}

} // verus!
