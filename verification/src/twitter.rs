//! The derived-identity registry: comment records addressed by an identifier
//! derived from (author, content digest, parent post), and reaction removal
//! that keeps the parent post's like/dislike counters consistent.
//!
//! There is no separate index: a comment's derived identifier is its storage
//! address, so creation fails exactly when a record with the same identifier
//! already exists. The host runtime authenticates the signing author and
//! commits or discards each call atomically; on any error nothing changes.

use vstd::prelude::*;

use crate::digest::sha256_hash;
use crate::digest::sha256_of;
use crate::vault::LedgerAccount;
use crate::AccountId;

verus! {

/// Upper bound, in bytes, on a comment's content.
pub const COMMENT_MAX_LENGTH: usize = 500;

/// The rejection reasons of the registry entry points.
#[derive(Clone, Copy, PartialEq, Eq, Structural, Debug)]
pub enum TwitterError {
    /// The comment content exceeds `COMMENT_MAX_LENGTH` bytes.
    CommentTooLong,
    /// A record with the same derived identifier already exists; creation is
    /// refused by the allocation step, not by a domain rule.
    AllocationFailed,
    /// The record does not belong to the calling author.
    Unauthorized,
    /// The record was not derived from the given parent post.
    ParentMismatch,
    /// The parent post's counter for this reaction kind is already zero, so a
    /// decrement would underflow. A zero counter beside a live record means
    /// the two fell out of sync externally; rather than saturate silently,
    /// the call is refused as a fatal invariant violation.
    CounterUnderflow,
}

/// The kind of a reaction record.
#[derive(Clone, Copy, PartialEq, Eq, Structural, Debug)]
pub enum ReactionType {
    Like,
    Dislike,
}

/// A post: its identity and its live reaction counters.
#[derive(Clone, Copy, PartialEq, Eq, Structural, Debug)]
pub struct Tweet {
    pub key: AccountId,
    pub likes: u64,
    pub dislikes: u64,
}

/// A reaction record, created by an external add-reaction step: its author,
/// the post it reacts to, its kind, and the storage cost refunded to the
/// author when the record is destroyed.
#[derive(Clone, Copy, PartialEq, Eq, Structural, Debug)]
pub struct Reaction {
    pub reaction_author: AccountId,
    pub parent_tweet: AccountId,
    pub reaction: ReactionType,
    pub rent: u64,
}

/// A stored comment record.
#[derive(Debug)]
pub struct Comment {
    pub comment_author: AccountId,
    pub content: Vec<u8>,
    pub parent_tweet: AccountId,
    /// SHA-256 digest of `content`, the content-derived seed of the record's
    /// identifier, fixed at creation.
    pub digest: Vec<u8>,
}

/// The mathematical image of a stored comment.
pub ghost struct CommentView {
    pub comment_author: AccountId,
    pub content: Seq<u8>,
    pub parent_tweet: AccountId,
    pub digest: Seq<u8>,
}

impl View for Comment {
    type V = CommentView;

    open spec fn view(&self) -> CommentView {
        CommentView {
            comment_author: self.comment_author,
            content: self.content@,
            parent_tweet: self.parent_tweet,
            digest: self.digest@,
        }
    }
}

/// A comment's storage identifier: the deterministic function of the author,
/// the content digest and the parent post from which the host derives the
/// record's address. Two identifiers are equal exactly when all three seed
/// components are equal.
pub ghost struct CommentIdent {
    pub author: AccountId,
    pub digest: Seq<u8>,
    pub parent: AccountId,
}

/// The identifier a stored comment record answers to.
pub open spec fn comment_ident_of(c: CommentView) -> CommentIdent {
    CommentIdent { author: c.comment_author, digest: c.digest, parent: c.parent_tweet }
}

/// The identifier derived for new content by an author under a parent post.
pub open spec fn derived_comment_ident(
    author: AccountId,
    content: Seq<u8>,
    parent: AccountId,
) -> CommentIdent {
    CommentIdent { author, digest: sha256_of(content), parent }
}

/// Whether some stored record already answers to `id`.
pub open spec fn registry_contains(s: Seq<CommentView>, id: CommentIdent) -> bool {
    exists|i: int| 0 <= i < s.len() && comment_ident_of(#[trigger] s[i]) == id
}

/// The content-addressed store of comment records. Existence of a record is
/// the index: creation fails exactly when the derived identifier is taken.
pub struct CommentRegistry {
    comments: Vec<Comment>,
}

impl View for CommentRegistry {
    type V = Seq<CommentView>;

    closed spec fn view(&self) -> Seq<CommentView> {
        self.comments@.map(|i: int, c: Comment| c@)
    }
}

impl CommentRegistry {
    /// Every stored digest is the digest of the stored content, and no two
    /// records share an identifier.
    pub open spec fn wf(self) -> bool {
        &&& forall|i: int|
            0 <= i < self@.len() ==> (#[trigger] self@[i]).digest == sha256_of(self@[i].content)
        &&& forall|i: int, j: int|
            0 <= i < self@.len() && 0 <= j < self@.len() && i != j ==> comment_ident_of(
                #[trigger] self@[i],
            ) != comment_ident_of(#[trigger] self@[j])
    }

    /// An empty registry.
    pub fn new() -> (r: CommentRegistry)
        ensures
            r@ == Seq::<CommentView>::empty(),
            r.wf(),
    {
        let r = CommentRegistry { comments: Vec::new() };
        proof {
            assert(r@ =~= Seq::<CommentView>::empty());
        }
        r
    }

    /// The number of live comment records.
    pub fn len(&self) -> (n: usize)
        ensures
            n == self@.len(),
    {
        self.comments.len()
    }

    /// The stored record at position `i`, in creation order, or `None` past
    /// the end.
    pub fn comment(&self, i: usize) -> (r: Option<&Comment>)
        ensures
            i < self@.len() ==> (r matches Some(c) && c@ == self@[i as int]),
            i >= self@.len() ==> r is None,
    {
        if i < self.comments.len() {
            Some(&self.comments[i])
        } else {
            None
        }
    }
}

/// Participants of an add-comment call; the host has already authenticated
/// `comment_author` and resolved the read-only parent `tweet`.
#[derive(Clone, Copy, PartialEq, Eq, Structural, Debug)]
pub struct AddCommentContext {
    pub comment_author: AccountId,
    pub tweet: AccountId,
}

/// Participants of a remove-reaction call; the host has already authenticated
/// `reaction_author` as the signer and loaded the reaction record. `None`
/// stands for a destroyed record.
#[derive(Clone, Copy, PartialEq, Eq, Structural, Debug)]
pub struct RemoveReactionContext {
    pub reaction_author: LedgerAccount,
    pub tweet_reaction: Option<Reaction>,
    pub tweet: Tweet,
}

/// The complete outcome of an add-comment call: over-long content is refused;
/// content whose derived identifier is already taken is refused by the
/// allocation step; otherwise the new record is appended.
pub open spec fn add_comment_transition(
    s: Seq<CommentView>,
    author: AccountId,
    content: Seq<u8>,
    parent: AccountId,
) -> Result<Seq<CommentView>, TwitterError> {
    if content.len() > COMMENT_MAX_LENGTH {
        Err(TwitterError::CommentTooLong)
    } else if registry_contains(s, derived_comment_ident(author, content, parent)) {
        Err(TwitterError::AllocationFailed)
    } else {
        Ok(
            s.push(
                CommentView {
                    comment_author: author,
                    content,
                    parent_tweet: parent,
                    digest: sha256_of(content),
                },
            ),
        )
    }
}

/// The complete outcome of a remove-reaction call: the record must belong to
/// the calling author and must have been derived from the given parent post;
/// the matching counter must be positive to be decremented (a zero counter
/// beside a live record is a fatal inconsistency, refused explicitly rather
/// than saturated). On success the counter drops by one and the record's
/// storage cost is refunded.
pub open spec fn remove_reaction_transition(
    t: Tweet,
    caller: LedgerAccount,
    r: Reaction,
) -> Result<(Tweet, LedgerAccount), TwitterError> {
    if r.reaction_author != caller.key {
        Err(TwitterError::Unauthorized)
    } else if r.parent_tweet != t.key {
        Err(TwitterError::ParentMismatch)
    } else {
        match r.reaction {
            ReactionType::Like => {
                if t.likes == 0 {
                    Err(TwitterError::CounterUnderflow)
                } else {
                    Ok(
                        (
                            Tweet { likes: (t.likes - 1) as u64, ..t },
                            LedgerAccount { balance: (caller.balance + r.rent) as u64, ..caller },
                        ),
                    )
                }
            },
            ReactionType::Dislike => {
                if t.dislikes == 0 {
                    Err(TwitterError::CounterUnderflow)
                } else {
                    Ok(
                        (
                            Tweet { dislikes: (t.dislikes - 1) as u64, ..t },
                            LedgerAccount { balance: (caller.balance + r.rent) as u64, ..caller },
                        ),
                    )
                }
            },
        }
    }
}

/// Byte-for-byte equality of two byte strings.
fn bytes_eq(a: &Vec<u8>, b: &Vec<u8>) -> (r: bool)
    ensures
        r <==> a@ == b@,
{
    if a.len() != b.len() {
        return false;
    }
    let mut i: usize = 0;
    while i < a.len()
        invariant
            i <= a.len(),
            a.len() == b.len(),
            forall|k: int| 0 <= k < i ==> a@[k] == b@[k],
        decreases a.len() - i,
    {
        if a[i] != b[i] {
            return false;
        }
        i = i + 1;
    }
    proof {
        assert(a@ =~= b@);
    }
    true
}

/// Create a comment record owned by the calling author under the parent
/// post. The record's identifier is derived from the author, the SHA-256
/// digest of the content and the parent; creation fails if the content is
/// over-long or if the identifier is already taken (a byte-identical comment
/// by the same author under the same parent). On failure the registry is
/// unchanged.
pub fn add_comment(
    ctx: &AddCommentContext,
    registry: &mut CommentRegistry,
    comment_content: Vec<u8>,
) -> (result: Result<(), TwitterError>)
    requires
        old(registry).wf(),
    ensures
        final (registry).wf(),
        (match add_comment_transition(
            old(registry)@,
            ctx.comment_author,
            comment_content@,
            ctx.tweet,
        ) {
            Ok(s) => final (registry)@ == s && result == Ok::<(), TwitterError>(()),
            Err(e) => final (registry)@ == old(registry)@ && result == Err::<(), TwitterError>(e),
        }),
{
    if comment_content.len() > COMMENT_MAX_LENGTH {
        return Err(TwitterError::CommentTooLong);
    }
    let digest = sha256_hash(&comment_content);
    let ghost id = derived_comment_ident(ctx.comment_author, comment_content@, ctx.tweet);
    let n = registry.comments.len();
    let mut i: usize = 0;
    while i < n
        invariant
            *registry == *old(registry),
            old(registry).wf(),
            comment_content@.len() <= COMMENT_MAX_LENGTH,
            n == registry.comments@.len(),
            i <= n,
            digest@ == sha256_of(comment_content@),
            id == derived_comment_ident(ctx.comment_author, comment_content@, ctx.tweet),
            forall|k: int| 0 <= k < i ==> comment_ident_of(#[trigger] registry@[k]) != id,
        decreases n - i,
    {
        let c = &registry.comments[i];
        proof {
            assert(registry@[i as int] == c@);
        }
        if c.comment_author == ctx.comment_author && c.parent_tweet == ctx.tweet && bytes_eq(
            &c.digest,
            &digest,
        ) {
            // the derived address is occupied: the allocation step refuses it
            proof {
                assert(comment_ident_of(registry@[i as int]) == id);
                assert(registry_contains(registry@, id));
            }
            return Err(TwitterError::AllocationFailed);
        }
        i = i + 1;
    }
    proof {
        assert(!registry_contains(registry@, id));
    }
    let comment = Comment {
        comment_author: ctx.comment_author,
        content: comment_content,
        parent_tweet: ctx.tweet,
        digest,
    };
    let ghost cv = comment@;
    let ghost before = registry@;
    registry.comments.push(comment);
    proof {
        assert(registry@ =~= before.push(cv));
        assert(comment_ident_of(cv) == id);
        assert forall|a: int, b: int|
            0 <= a < registry@.len() && 0 <= b < registry@.len() && a != b implies comment_ident_of(
            #[trigger] registry@[a],
        ) != comment_ident_of(#[trigger] registry@[b]) by {
            if a < before.len() && b < before.len() {
            } else if a == before.len() {
                assert(comment_ident_of(registry@[b]) != id);
            } else {
                assert(comment_ident_of(registry@[a]) != id);
            }
        }
    }
    Ok(())
}

/// Destroy the calling author's reaction record and decrement the matching
/// counter on the parent post, refunding the record's storage cost to the
/// author. The record must belong to the caller and must point at the given
/// post; on any failure the post, the author's balance and the record are
/// all unchanged.
pub fn remove_reaction(ctx: &mut RemoveReactionContext) -> (result: Result<(), TwitterError>)
    requires
        old(ctx).tweet_reaction matches Some(r) && old(ctx).reaction_author.balance + r.rent
            <= u64::MAX,
    ensures
        (match remove_reaction_transition(
            old(ctx).tweet,
            old(ctx).reaction_author,
            old(ctx).tweet_reaction.unwrap(),
        ) {
            Ok(t) => final (ctx).tweet == t.0 && final (ctx).reaction_author == t.1
                && final (ctx).tweet_reaction is None && result == Ok::<(), TwitterError>(()),
            Err(e) => *final (ctx) == *old(ctx) && result == Err::<(), TwitterError>(e),
        }),
{
    let r = match ctx.tweet_reaction {
        Some(r) => r,
        None => unreached(),
    };
    if r.reaction_author != ctx.reaction_author.key {
        return Err(TwitterError::Unauthorized);
    }
    if r.parent_tweet != ctx.tweet.key {
        return Err(TwitterError::ParentMismatch);
    }
    match r.reaction {
        ReactionType::Like => {
            if ctx.tweet.likes == 0 {
                return Err(TwitterError::CounterUnderflow);
            }
            ctx.tweet.likes = ctx.tweet.likes - 1;
        },
        ReactionType::Dislike => {
            if ctx.tweet.dislikes == 0 {
                return Err(TwitterError::CounterUnderflow);
            }
            ctx.tweet.dislikes = ctx.tweet.dislikes - 1;
        },
    }
    ctx.reaction_author.balance = ctx.reaction_author.balance + r.rent;
    // destroying the record returns its storage cost to the author
    ctx.tweet_reaction = None;
    Ok(())
}

/// Creating the same comment twice collides: after a successful creation the
/// byte-identical call by the same author under the same parent is refused by
/// the allocation step.
pub proof fn lemma_comment_duplicate_collides(
    s: Seq<CommentView>,
    s2: Seq<CommentView>,
    author: AccountId,
    content: Seq<u8>,
    parent: AccountId,
)
    requires
        add_comment_transition(s, author, content, parent) == Ok::<
            Seq<CommentView>,
            TwitterError,
        >(s2),
    ensures
        add_comment_transition(s2, author, content, parent) == Err::<
            Seq<CommentView>,
            TwitterError,
        >(TwitterError::AllocationFailed),
{
    let id = derived_comment_ident(author, content, parent);
    assert(comment_ident_of(s2[s.len() as int]) == id);
    assert(registry_contains(s2, id));
}

/// Changing the author or the parent — or the content, provided the digests
/// differ — changes the derived identifier.
pub proof fn lemma_distinct_inputs_distinct_ident(
    a1: AccountId,
    c1: Seq<u8>,
    p1: AccountId,
    a2: AccountId,
    c2: Seq<u8>,
    p2: AccountId,
)
    requires
        a1 != a2 || p1 != p2 || sha256_of(c1) != sha256_of(c2),
    ensures
        derived_comment_ident(a1, c1, p1) != derived_comment_ident(a2, c2, p2),
{
}

/// Two creations with distinct derived identifiers both succeed: if the first
/// succeeds and the second identifier is fresh too, the second creation is
/// accepted on the grown registry.
pub proof fn lemma_comment_distinct_both_succeed(
    s: Seq<CommentView>,
    s2: Seq<CommentView>,
    a1: AccountId,
    c1: Seq<u8>,
    p1: AccountId,
    a2: AccountId,
    c2: Seq<u8>,
    p2: AccountId,
)
    requires
        add_comment_transition(s, a1, c1, p1) == Ok::<Seq<CommentView>, TwitterError>(s2),
        c2.len() <= COMMENT_MAX_LENGTH,
        !registry_contains(s, derived_comment_ident(a2, c2, p2)),
        derived_comment_ident(a1, c1, p1) != derived_comment_ident(a2, c2, p2),
    ensures
        add_comment_transition(s2, a2, c2, p2) is Ok,
{
    let id2 = derived_comment_ident(a2, c2, p2);
    if registry_contains(s2, id2) {
        let i = choose|i: int| 0 <= i < s2.len() && comment_ident_of(#[trigger] s2[i]) == id2;
        if i < s.len() {
            assert(comment_ident_of(s[i]) == id2);
        } else {
            assert(comment_ident_of(s2[i]) == derived_comment_ident(a1, c1, p1));
        }
    }
}

/// Over-long content is refused with `CommentTooLong`, whatever the registry
/// holds (and the refusal creates no record: see `add_comment`'s contract).
pub proof fn lemma_comment_too_long(
    s: Seq<CommentView>,
    author: AccountId,
    content: Seq<u8>,
    parent: AccountId,
)
    requires
        content.len() > COMMENT_MAX_LENGTH,
    ensures
        add_comment_transition(s, author, content, parent) == Err::<
            Seq<CommentView>,
            TwitterError,
        >(TwitterError::CommentTooLong),
{
}

/// A reaction removal by anyone but the record's author is refused with
/// `Unauthorized`, whatever the counters hold (and leaves the post, the
/// balance and the record unchanged: see `remove_reaction`'s contract).
pub proof fn lemma_remove_reaction_non_author(t: Tweet, caller: LedgerAccount, r: Reaction)
    requires
        r.reaction_author != caller.key,
    ensures
        remove_reaction_transition(t, caller, r) == Err::<
            (Tweet, LedgerAccount),
            TwitterError,
        >(TwitterError::Unauthorized),
{
}

} // verus!
