//! Clipboard sync decisions: deduplication and echo suppression between the local
//! clipboard monitor and remote peers.

use crate::message::{ClipboardContent, ContentView, content_digest};
use vstd::prelude::*;

verus! {

/// How long, in milliseconds, the hash of a content written from a remote peer
/// suppresses its echo.
pub const ECHO_WINDOW_MS: u64 = 800;

/// Content with nothing in it: empty text, or an image with no bytes.
pub open spec fn is_empty_content(c: ContentView) -> bool {
    match c {
        ContentView::Text(s) => s.len() == 0,
        ContentView::Image { data, .. } => data.len() == 0,
    }
}

/// Whether the content is empty; empty content is never synced.
pub fn is_empty(content: &ClipboardContent) -> (r: bool)
    ensures
        r == is_empty_content(content@),
{
    match content {
        ClipboardContent::Text(s) => s.as_str().is_empty(),
        ClipboardContent::Image { data, .. } => data.is_empty(),
    }
}

/// Whether two content hashes are equal.
pub fn digest_eq(a: &[u8; 32], b: &[u8; 32]) -> (r: bool)
    ensures
        r == (a@ == b@),
{
    let mut i: usize = 0;
    while i < 32
        invariant
            0 <= i <= 32,
            a@.len() == 32,
            b@.len() == 32,
            forall|j: int| 0 <= j < i ==> a@[j] == b@[j],
        decreases 32 - i,
    {
        if a[i] != b[i] {
            return false;
        }
        i += 1;
    }
    assert(a@ =~= b@);
    true
}

/// What happens to a clipboard change, remote or local, given the hash of the
/// content last written from a remote peer.
pub enum Verdict {
    /// Empty content is dropped.
    IgnoreEmpty,
    /// The content is the one just written from a remote peer.
    SuppressEcho,
    /// The change goes on: a remote one to the local clipboard check, a local one
    /// to the peers.
    Proceed,
}

/// The verdict on a change to `c` while `last` is the suppressed hash.
pub open spec fn echo_verdict(last: Option<Seq<u8>>, c: ContentView) -> Verdict {
    if is_empty_content(c) {
        Verdict::IgnoreEmpty
    } else if last == Some(content_digest(c)) {
        Verdict::SuppressEcho
    } else {
        Verdict::Proceed
    }
}

/// The suppressed hash after a remote content with hash `h` was written locally.
pub open spec fn state_after_apply(h: Seq<u8>) -> Option<Seq<u8>> {
    Some(h)
}

/// The suppressed hash after the echo window of `h` ran out.
pub open spec fn state_after_expiry(last: Option<Seq<u8>>, h: Seq<u8>) -> Option<Seq<u8>> {
    if last == Some(h) {
        None
    } else {
        last
    }
}

/// Decision on a clipboard event from a remote peer.
pub enum RemoteDecision {
    IgnoreEmpty,
    SuppressEcho,
    /// Read the local clipboard and compare it with the content of this hash.
    CheckLocal([u8; 32]),
}

/// Decision on a change of the local clipboard.
pub enum LocalDecision {
    IgnoreEmpty,
    SuppressEcho,
    Broadcast,
}

/// Tracks sync state to suppress echo loops.
pub struct SyncState {
    /// Hash of the content we last wrote to the local clipboard from remote.
    last_remote_hash: Option<[u8; 32]>,
}

impl View for SyncState {
    type V = Option<Seq<u8>>;

    closed spec fn view(&self) -> Option<Seq<u8>> {
        match self.last_remote_hash {
            Some(h) => Some(h@),
            None => None,
        }
    }
}

impl SyncState {
    /// A state that suppresses nothing.
    pub fn new() -> (s: Self)
        ensures
            s@ is None,
    {
        SyncState { last_remote_hash: None }
    }

    fn is_suppressed(&self, hash: &[u8; 32]) -> (r: bool)
        ensures
            r == (self@ == Some(hash@)),
    {
        match &self.last_remote_hash {
            Some(h) => digest_eq(h, hash),
            None => false,
        }
    }

    /// Handle a clipboard event from a remote peer: empty content and the echo of
    /// our own last write are dropped, anything else goes on to the local check
    /// with its hash.
    pub fn decide_remote(&self, content: &ClipboardContent) -> (r: RemoteDecision)
        ensures
            echo_verdict(self@, content@) is IgnoreEmpty <==> r is IgnoreEmpty,
            echo_verdict(self@, content@) is SuppressEcho <==> r is SuppressEcho,
            echo_verdict(self@, content@) is Proceed <==> r is CheckLocal,
            r matches RemoteDecision::CheckLocal(h) ==> h@ == content_digest(content@),
    {
        if is_empty(content) {
            return RemoteDecision::IgnoreEmpty;
        }
        let content_hash = content.hash();
        if self.is_suppressed(&content_hash) {
            RemoteDecision::SuppressEcho
        } else {
            RemoteDecision::CheckLocal(content_hash)
        }
    }

    /// Handle a local clipboard change: empty content and the echo of a remote
    /// write are dropped, anything else is broadcast.
    pub fn decide_local(&self, content: &ClipboardContent) -> (r: LocalDecision)
        ensures
            echo_verdict(self@, content@) is IgnoreEmpty <==> r is IgnoreEmpty,
            echo_verdict(self@, content@) is SuppressEcho <==> r is SuppressEcho,
            echo_verdict(self@, content@) is Proceed <==> r is Broadcast,
    {
        if is_empty(content) {
            return LocalDecision::IgnoreEmpty;
        }
        let content_hash = content.hash();
        if self.is_suppressed(&content_hash) {
            LocalDecision::SuppressEcho
        } else {
            LocalDecision::Broadcast
        }
    }

    /// Record the hash of a remote content just written to the local clipboard, so
    /// that the monitor's echo of it is suppressed.
    pub fn record_applied(&mut self, hash: [u8; 32])
        ensures
            final(self)@ == state_after_apply(hash@),
    {
        self.last_remote_hash = Some(hash);
    }

    /// The echo window of `hash` ran out: clear the suppression, unless a later
    /// remote write replaced it.
    pub fn expire(&mut self, hash: &[u8; 32])
        ensures
            final(self)@ == state_after_expiry(old(self)@, hash@),
    {
        if self.is_suppressed(hash) {
            self.last_remote_hash = None;
        }
    }
}

/// After the remote check, whether the remote content is written to the local
/// clipboard: not when the local clipboard already holds content of that hash.
pub fn should_apply(hash: &[u8; 32], local: &Option<ClipboardContent>) -> (r: bool)
    ensures
        r == !(local matches Some(l) && content_digest(l@) == hash@),
{
    match local {
        Some(l) => {
            let local_hash = l.hash();
            !digest_eq(&local_hash, hash)
        },
        None => true,
    }
}

/// A content written from a remote peer is not sent back out when the local
/// monitor reports it, nor written again when a peer sends it once more.
pub proof fn lemma_applied_content_is_suppressed(c: ContentView)
    requires
        !is_empty_content(c),
    ensures
        echo_verdict(state_after_apply(content_digest(c)), c) is SuppressEcho,
{
}

/// Once the echo window of the last remote write ran out, the same content counts as
/// a fresh change again.
pub proof fn lemma_expired_content_proceeds(c: ContentView, last: Option<Seq<u8>>)
    requires
        !is_empty_content(c),
        last == state_after_apply(content_digest(c)),
    ensures
        echo_verdict(state_after_expiry(last, content_digest(c)), c) is Proceed,
{
}

/// The end of an older echo window leaves a later remote write suppressed.
pub proof fn lemma_stale_expiry_keeps_suppression(h_old: Seq<u8>, h_new: Seq<u8>)
    requires
        h_old != h_new,
    ensures
        state_after_expiry(state_after_apply(h_new), h_old) == state_after_apply(h_new),
{
}

/// Empty content is neither written locally nor broadcast, whatever the state.
pub proof fn lemma_empty_never_proceeds(last: Option<Seq<u8>>, c: ContentView)
    requires
        is_empty_content(c),
    ensures
        echo_verdict(last, c) is IgnoreEmpty,
{
}

} // verus!
