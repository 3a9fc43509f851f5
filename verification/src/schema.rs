//! Which files make up a schema, and in what order their texts are parsed.

use vstd::prelude::*;
use vstd::string::StringSliceAdditionalSpecFns;

verus! {

/// The directory that holds the definitions of the common types.
pub const COMMON_TYPES_DIR: &'static str = "google_protobuf";

/// The bytes of `.proto`, which mark a file's name as that of a schema
/// file wherever they stand in it.
pub open spec fn marker() -> Seq<u8> {
    seq![46u8, 112u8, 114u8, 111u8, 116u8, 111u8]
}

/// Whether `needle` stands in `hay` at index `i`.
pub open spec fn occurs_at(hay: Seq<u8>, needle: Seq<u8>, i: int) -> bool {
    0 <= i && i + needle.len() <= hay.len() && hay.subrange(i, i + needle.len()) == needle
}

/// Whether `needle` stands anywhere in `hay`.
pub open spec fn contains_bytes(hay: Seq<u8>, needle: Seq<u8>) -> bool {
    exists|i: int| occurs_at(hay, needle, i)
}

fn marker_at(name: &[u8], i: usize) -> (r: bool)
    requires
        i + 6 <= name@.len(),
    ensures
        r == occurs_at(name@, marker(), i as int),
{
    let r = name[i] == 46 && name[i + 1] == 112 && name[i + 2] == 114 && name[i + 3] == 111
        && name[i + 4] == 116 && name[i + 5] == 111;
    proof {
        let part = name@.subrange(i as int, i + 6);
        if r {
            assert(part =~= marker());
        } else {
            assert(part[0] == name@[i as int]);
            assert(part[1] == name@[i + 1]);
            assert(part[2] == name@[i + 2]);
            assert(part[3] == name@[i + 3]);
            assert(part[4] == name@[i + 4]);
            assert(part[5] == name@[i + 5]);
        }
    }
    r
}

/// Whether a file of the common types directory is a schema file: its name
/// holds `.proto` somewhere.
pub fn is_schema_file_name(name: &str) -> (r: bool)
    ensures
        r == contains_bytes(name.spec_bytes(), marker()),
{
    let bytes = name.as_bytes();
    if bytes.len() < 6 {
        assert forall|i: int| !occurs_at(bytes@, marker(), i) by {}
        return false;
    }
    let last = bytes.len() - 6;
    let mut i: usize = 0;
    while i <= last
        invariant
            last + 6 == bytes@.len(),
            bytes@.len() <= usize::MAX,
            bytes@ == name.spec_bytes(),
            i <= last + 1,
            forall|k: int| 0 <= k < i ==> !occurs_at(bytes@, marker(), k),
        decreases last + 1 - i,
    {
        if marker_at(bytes, i) {
            return true;
        }
        i = i + 1;
    }
    assert forall|k: int| !occurs_at(bytes@, marker(), k) by {}
    false
}

/// The texts that are parsed as one schema: those of the common types in
/// the order given, then the primary file's.
pub fn schema_sources(common: Vec<String>, primary: String) -> (sources: Vec<String>)
    ensures
        sources@ == common@.push(primary),
{
    let mut sources = common;
    sources.push(primary);
    sources
}

} // verus!
