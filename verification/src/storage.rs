//! Where an uploaded file goes: a fresh identifier, an underscore and the
//! file name that the client declared, under the upload directory.
use vstd::prelude::*;

verus! {

/// A lowercase hexadecimal digit.
pub open spec fn is_lower_hex(c: char) -> bool {
    ('0' <= c && c <= '9') || ('a' <= c && c <= 'f')
}

/// The places of the four hyphens in a hyphenated identifier.
pub open spec fn is_hyphen_place(i: int) -> bool {
    i == 8 || i == 13 || i == 18 || i == 23
}

/// The shape of a random identifier in hyphenated form: 36 characters,
/// hyphens after the 8th, 12th, 16th and 20th digit, lowercase hexadecimal
/// digits elsewhere; the 13th digit is the version, 4, and the 17th digit
/// carries the variant, so it is one of 8, 9, a, b.
pub open spec fn is_identifier(id: Seq<char>) -> bool {
    &&& id.len() == 36
    &&& forall|i: int|
        0 <= i < 36 ==> if is_hyphen_place(i) {
            #[trigger] id[i] == '-'
        } else {
            is_lower_hex(id[i])
        }
    &&& id[14] == '4'
    &&& (id[19] == '8' || id[19] == '9' || id[19] == 'a' || id[19] == 'b')
}

/// An identifier of that shape: all digits zero but the two that are fixed.
pub open spec fn sample_identifier() -> Seq<char> {
    Seq::new(
        36,
        |i: int|
            if is_hyphen_place(i) {
                '-'
            } else if i == 14 {
                '4'
            } else if i == 19 {
                '8'
            } else {
                '0'
            },
    )
}

/// The path of the file that holds an upload.
pub open spec fn path_text(id: Seq<char>, file_name: Seq<char>) -> Seq<char> {
    "./files/"@ + id + "_"@ + file_name
}

/// Draws a random identifier with `uuid::Uuid::new_v4` and writes it out with
/// the crate's `Display`, which is the hyphenated lowercase form. Trusted:
/// the text has that form, with the version and variant digits that the
/// crate sets. Nothing is claimed of which identifier comes, and two calls
/// may or may not differ. The call panics where the system gives no random
/// bytes.
#[verifier::external_body]
pub(crate) fn fresh_identifier() -> (id: String)
    ensures
        is_identifier(id@),
{
    uuid::Uuid::new_v4().to_string()
}

/// Builds the path of an upload from an identifier and the declared file
/// name. The file name is taken as it is: nothing in it is filtered.
pub fn upload_path(id: &str, file_name: &str) -> (path: String)
    ensures
        path@ == path_text(id@, file_name@),
{
    let mut path = String::from_str("./files/");
    path.append(id);
    path.append("_");
    path.append(file_name);
    path
}

/// A path gives back the identifier and the file name it was built from.
pub proof fn lemma_path_parts(id: Seq<char>, file_name: Seq<char>)
    ensures
        path_text(id, file_name).len() == 9 + id.len() + file_name.len(),
        path_text(id, file_name).subrange(8, 8 + id.len() as int) == id,
        path_text(id, file_name).subrange(
            9 + id.len() as int,
            path_text(id, file_name).len() as int,
        ) == file_name,
{
    reveal_strlit("./files/");
    reveal_strlit("_");
    let path = path_text(id, file_name);
    assert(path.subrange(8, 8 + id.len() as int) =~= id);
    assert(path.subrange(9 + id.len() as int, path.len() as int) =~= file_name);
}

/// Two uploads land on the same path only if they share both the identifier
/// and the file name: with identifiers of one length, as all drawn ones are,
/// different identifiers give different paths even for the same file name.
pub proof fn lemma_paths_distinct(
    id_a: Seq<char>,
    file_a: Seq<char>,
    id_b: Seq<char>,
    file_b: Seq<char>,
)
    requires
        id_a.len() == id_b.len(),
    ensures
        path_text(id_a, file_a) == path_text(id_b, file_b) <==> (id_a == id_b && file_a == file_b),
{
    lemma_path_parts(id_a, file_a);
    lemma_path_parts(id_b, file_b);
}

/// Two uploads of one file name under two different drawn identifiers go to
/// two different paths, so neither overwrites the other.
pub proof fn lemma_same_name_distinct_paths(
    id_a: Seq<char>,
    id_b: Seq<char>,
    file_name: Seq<char>,
)
    requires
        is_identifier(id_a),
        is_identifier(id_b),
        id_a != id_b,
    ensures
        path_text(id_a, file_name) != path_text(id_b, file_name),
{
    lemma_paths_distinct(id_a, file_name, id_b, file_name);
}

} // verus!
