//! Which files in a database directory are log segments, and which of them may go.
//!
//! A file name is the sequence of its bytes. A log segment is known by its extension alone,
//! and only a segment of length zero is ever removed: a segment that holds anything is
//! taken to be still in use.
use vstd::prelude::*;

verus! {

/// The byte `.`, which sets off the extension of a file name.
pub const DOT: u8 = 46;

/// The extension of a log segment, `log`, as bytes.
pub open spec fn wal_extension() -> Seq<u8> {
    seq![108u8, 111u8, 103u8]
}

/// The position of the last dot in a file name, if it has one.
pub open spec fn last_dot(name: Seq<u8>) -> Option<int>
    decreases name.len(),
{
    if name.len() == 0 {
        None
    } else if name.last() == DOT {
        Some(name.len() - 1)
    } else {
        last_dot(name.drop_last())
    }
}

/// The extension of a file name: what follows its last dot. A name without a dot has none,
/// and neither has a name whose only dot is its first byte.
pub open spec fn extension(name: Seq<u8>) -> Option<Seq<u8>> {
    match last_dot(name) {
        Some(dot) => if dot == 0 {
            None
        } else {
            Some(name.subrange(dot + 1, name.len() as int))
        },
        None => None,
    }
}

/// Whether a file of this name is a log segment.
pub open spec fn is_wal_segment_name(name: Seq<u8>) -> bool {
    extension(name) == Some(wal_extension())
}

/// Whether a file of this name and length is removed when the empty log segments are
/// cleaned up.
pub open spec fn is_removable(name: Seq<u8>, len: u64) -> bool {
    is_wal_segment_name(name) && len == 0
}

/// The last dot of a name is a dot, and no dot follows it.
pub proof fn lemma_last_dot(name: Seq<u8>)
    ensures
        match last_dot(name) {
            Some(dot) => {
                &&& 0 <= dot < name.len()
                &&& name[dot] == DOT
                &&& forall|i: int| dot < i < name.len() ==> name[i] != DOT
            },
            None => forall|i: int| 0 <= i < name.len() ==> name[i] != DOT,
        },
    decreases name.len(),
{
    if name.len() > 0 && name.last() != DOT {
        let front = name.drop_last();
        lemma_last_dot(front);
        assert(forall|i: int| 0 <= i < front.len() ==> front[i] == name[i]);
        match last_dot(front) {
            Some(dot) => {
                assert(name[dot] == front[dot]);
                assert forall|i: int| dot < i < name.len() implies name[i] != DOT by {
                    if i < front.len() {
                        assert(front[i] != DOT);
                    }
                }
            },
            None => {
                assert forall|i: int| 0 <= i < name.len() implies name[i] != DOT by {
                    if i < front.len() {
                        assert(front[i] != DOT);
                    }
                }
            },
        }
    }
}

/// A name is that of a log segment exactly if it ends in `.log` and something comes before
/// that.
pub proof fn lemma_wal_segment_name(name: Seq<u8>)
    ensures
        is_wal_segment_name(name) <==> {
            &&& name.len() > 4
            &&& name[name.len() - 4] == DOT
            &&& name[name.len() - 3] == 108
            &&& name[name.len() - 2] == 111
            &&& name[name.len() - 1] == 103
        },
{
    lemma_last_dot(name);
    let n = name.len() as int;
    match last_dot(name) {
        Some(dot) => {
            let ext = name.subrange(dot + 1, n);
            if dot != 0 && ext == wal_extension() {
                assert(ext.len() == 3);
                assert(ext[0] == 108 && ext[1] == 111 && ext[2] == 103);
            }
            if n > 4 && name[n - 4] == DOT && name[n - 3] == 108 && name[n - 2] == 111 && name[n
                - 1] == 103 {
                assert(dot == n - 4);
                assert(ext =~= wal_extension());
            }
        },
        None => {},
    }
}

/// Tells whether a file of this name is a log segment.
pub fn has_wal_extension(name: &[u8]) -> (is_segment: bool)
    ensures
        is_segment == is_wal_segment_name(name@),
{
    proof {
        lemma_wal_segment_name(name@);
    }
    let n = name.len();
    n > 4 && name[n - 4] == DOT && name[n - 3] == 108 && name[n - 2] == 111 && name[n - 1] == 103
}

/// Tells whether a file of this name and length is an empty log segment, which is removed
/// when the log is cleaned up. A file of any other name, or of any other length, stays.
pub fn is_empty_wal_file(name: &[u8], len: u64) -> (removable: bool)
    ensures
        removable == is_removable(name@, len),
{
    has_wal_extension(name) && len == 0
}

} // verus!
