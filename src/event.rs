//! Change notifications as the watch loop sees them, and the filter that
//! picks the ones worth dispatching.
use vstd::prelude::*;

verus! {

/// What changed in a file's data.
#[derive(Clone, Copy, Debug, PartialEq, Eq, Structural)]
pub enum DataChange {
    Any,
    Size,
    Content,
    Other,
}

/// The kind of a modification.
#[derive(Clone, Copy, Debug, PartialEq, Eq, Structural)]
pub enum ModifyKind {
    Any,
    Data(DataChange),
    Metadata,
    Name,
    Other,
}

/// The kind of a change notification.
#[derive(Clone, Copy, Debug, PartialEq, Eq, Structural)]
pub enum EventKind {
    Any,
    Access,
    Create,
    Modify(ModifyKind),
    Remove,
    Other,
}

/// One change notification: its kind and the paths it concerns, each path
/// as the raw bytes of its name. Only the first path is consulted.
#[derive(Debug)]
pub struct WatchEvent {
    pub kind: EventKind,
    pub paths: Vec<Vec<u8>>,
}

pub const DOT: u8 = 46;

pub const SLASH: u8 = 47;

/// An extension is a non-empty name without dots or separators.
pub open spec fn is_plain_extension(ext: Seq<u8>) -> bool {
    &&& ext.len() > 0
    &&& forall|i: int| 0 <= i < ext.len() ==> ext[i] != DOT && ext[i] != SLASH
}

/// The bytes of the recognized extension, `redis`.
pub open spec fn recognized_extension() -> Seq<u8> {
    seq![114u8, 101u8, 100u8, 105u8, 115u8]
}

/// The file name of `path` (what follows its last separator) has extension
/// `ext`: it ends in a dot followed by `ext`, and that dot is not the first
/// byte of the file name (a hidden file such as `.redis` has no extension).
pub open spec fn has_extension(path: Seq<u8>, ext: Seq<u8>) -> bool {
    let n = path.len();
    let k = ext.len();
    &&& n >= k + 2
    &&& path.subrange(n - k, n as int) == ext
    &&& path[n - k - 1] == DOT
    &&& path[n - k - 2] != SLASH
}

/// The kind of notification that signals a change of a file's bytes.
pub open spec fn is_content_modification(kind: EventKind) -> bool {
    kind == EventKind::Modify(ModifyKind::Data(DataChange::Content))
}

/// The path that an event asks to dispatch, if any: the first path of a
/// content modification whose file carries the recognized extension.
pub open spec fn accepted_path(kind: EventKind, paths: Seq<Seq<u8>>) -> Option<Seq<u8>> {
    if is_content_modification(kind) && paths.len() > 0 && has_extension(
        paths[0],
        recognized_extension(),
    ) {
        Some(paths[0])
    } else {
        None
    }
}

/// The view of each path of an event.
pub open spec fn paths_view(paths: Seq<Vec<u8>>) -> Seq<Seq<u8>> {
    paths.map_values(|p: Vec<u8>| p@)
}

impl WatchEvent {
    pub open spec fn path_bytes(&self) -> Seq<Seq<u8>> {
        paths_view(self.paths@)
    }
}

/// The bytes of the recognized extension.
pub fn recognized_extension_bytes() -> (r: Vec<u8>)
    ensures
        r@ == recognized_extension(),
{
    let r: Vec<u8> = vec![114u8, 101u8, 100u8, 105u8, 115u8];
    assert(r@ =~= recognized_extension());
    r
}

/// Whether the file name of `path` has the extension `ext`.
pub fn path_has_extension(path: &Vec<u8>, ext: &Vec<u8>) -> (r: bool)
    requires
        is_plain_extension(ext@),
    ensures
        r == has_extension(path@, ext@),
{
    let n = path.len();
    let k = ext.len();
    if n < 2 || n - 2 < k {
        return false;
    }
    if path[n - k - 1] != DOT || path[n - k - 2] == SLASH {
        return false;
    }
    let mut i: usize = 0;
    while i < k
        invariant
            i <= k,
            k == ext@.len(),
            n == path@.len(),
            n >= k + 2,
            forall|j: int| 0 <= j < i ==> path@[n - k + j] == ext@[j],
        decreases k - i,
    {
        if path[n - k + i] != ext[i] {
            assert(path@.subrange(n - k, n as int)[i as int] != ext@[i as int]);
            return false;
        }
        i = i + 1;
    }
    assert(path@.subrange(n - k, n as int) =~= ext@);
    true
}

/// The event filter: the path to dispatch for `event`, or `None` when the
/// event is dropped. Nothing else is touched either way.
pub fn accept(event: &WatchEvent) -> (r: Option<Vec<u8>>)
    ensures
        r matches Some(p) ==> accepted_path(event.kind, event.path_bytes()) == Some(p@),
        r is None ==> accepted_path(event.kind, event.path_bytes()) is None,
{
    if !matches!(event.kind, EventKind::Modify(ModifyKind::Data(DataChange::Content))) {
        return None;
    }
    if event.paths.len() == 0 {
        return None;
    }
    let ext = recognized_extension_bytes();
    assert(is_plain_extension(ext@)) by {
        assert(forall|i: int| 0 <= i < 5 ==> #[trigger] ext@[i] != DOT && ext@[i] != SLASH);
    }
    let first = &event.paths[0];
    if path_has_extension(first, &ext) {
        Some(first.clone())
    } else {
        None
    }
}

} // verus!
