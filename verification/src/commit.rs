//! The commit that a run is modelled on, and the commits that it writes.

use crate::oid::ObjectId;
use vstd::prelude::*;

verus! {

/// Who made a commit, and when: a name, an e-mail address, the time in
/// seconds since the epoch, and the offset of the author's time zone from UTC
/// in seconds.
#[derive(Debug)]
pub struct Identity {
    pub name: Vec<u8>,
    pub email: Vec<u8>,
    pub seconds: i64,
    pub offset: i32,
}

/// An identity as a mathematical value.
pub struct IdentityView {
    pub name: Seq<u8>,
    pub email: Seq<u8>,
    pub seconds: int,
    pub offset: int,
}

impl View for Identity {
    type V = IdentityView;

    open spec fn view(&self) -> IdentityView {
        IdentityView {
            name: self.name@,
            email: self.email@,
            seconds: self.seconds as int,
            offset: self.offset as int,
        }
    }
}

/// The identifiers of a list, each as its bytes.
pub open spec fn ids_view(ids: Seq<ObjectId>) -> Seq<Seq<u8>> {
    Seq::new(ids.len(), |k: int| ids[k]@)
}

/// What a run reads of the commit that it is modelled on.
#[derive(Debug)]
pub struct BaseCommit {
    pub tree: ObjectId,
    pub parents: Vec<ObjectId>,
    pub author: Identity,
    pub committer: Identity,
}

/// A base commit as a mathematical value.
pub struct BaseView {
    pub tree: Seq<u8>,
    pub parents: Seq<Seq<u8>>,
    pub author: IdentityView,
    pub committer: IdentityView,
}

impl View for BaseCommit {
    type V = BaseView;

    open spec fn view(&self) -> BaseView {
        BaseView {
            tree: self.tree@,
            parents: ids_view(self.parents@),
            author: self.author@,
            committer: self.committer@,
        }
    }
}

/// A commit to be written: a tree, the parents in order, who wrote and who
/// committed it, and a message. It carries nothing else: no encoding and no
/// further headers.
#[derive(Debug)]
pub struct CommitRecord {
    pub tree: ObjectId,
    pub parents: Vec<ObjectId>,
    pub author: Identity,
    pub committer: Identity,
    pub message: String,
}

/// A commit to be written as a mathematical value.
pub struct RecordView {
    pub tree: Seq<u8>,
    pub parents: Seq<Seq<u8>>,
    pub author: IdentityView,
    pub committer: IdentityView,
    pub message: Seq<char>,
}

impl View for CommitRecord {
    type V = RecordView;

    open spec fn view(&self) -> RecordView {
        RecordView {
            tree: self.tree@,
            parents: ids_view(self.parents@),
            author: self.author@,
            committer: self.committer@,
            message: self.message@,
        }
    }
}

/// The commit that is modelled on `base` and says `message`: tree, parents,
/// author and committer are those of `base`.
pub open spec fn synthesized(base: BaseView, message: Seq<char>) -> RecordView {
    RecordView {
        tree: base.tree,
        parents: base.parents,
        author: base.author,
        committer: base.committer,
        message,
    }
}

/// The whole minutes of an offset given in seconds, rounded towards zero.
pub open spec fn offset_minutes(seconds: int) -> int {
    if seconds >= 0 {
        seconds / 60
    } else {
        -((-seconds) / 60)
    }
}

/// A copy of a byte string.
pub fn copy_bytes(bytes: &Vec<u8>) -> (copy: Vec<u8>)
    ensures
        copy@ == bytes@,
{
    let mut copy: Vec<u8> = Vec::new();
    let mut k: usize = 0;
    while k < bytes.len()
        invariant
            k <= bytes.len(),
            copy@ == bytes@.subrange(0, k as int),
        decreases bytes.len() - k,
    {
        copy.push(bytes[k]);
        k = k + 1;
        assert(copy@ =~= bytes@.subrange(0, k as int));
    }
    assert(bytes@.subrange(0, bytes.len() as int) =~= bytes@);
    copy
}

/// A copy of a list of identifiers, in the same order.
pub fn copy_ids(ids: &Vec<ObjectId>) -> (copy: Vec<ObjectId>)
    ensures
        copy@ == ids@,
{
    let mut copy: Vec<ObjectId> = Vec::new();
    let mut k: usize = 0;
    while k < ids.len()
        invariant
            k <= ids.len(),
            copy@ == ids@.subrange(0, k as int),
        decreases ids.len() - k,
    {
        copy.push(ids[k]);
        k = k + 1;
        assert(copy@ =~= ids@.subrange(0, k as int));
    }
    assert(ids@.subrange(0, ids.len() as int) =~= ids@);
    copy
}

impl Identity {
    /// The identity with the given name, e-mail address, time and offset in
    /// seconds.
    pub fn new(name: Vec<u8>, email: Vec<u8>, seconds: i64, offset: i32) -> (id: Identity)
        ensures
            id@ == (IdentityView {
                name: name@,
                email: email@,
                seconds: seconds as int,
                offset: offset as int,
            }),
    {
        Identity { name, email, seconds, offset }
    }

    /// The identity with the given name, e-mail address and time, and an
    /// offset given in minutes; `None` where that offset in seconds does not
    /// fit its type.
    pub fn with_offset_minutes(name: Vec<u8>, email: Vec<u8>, seconds: i64, minutes: i32) -> (r:
        Option<Identity>)
        ensures
            r is Some <==> i32::MIN <= minutes * 60 <= i32::MAX,
            r matches Some(id) ==> id@ == (IdentityView {
                name: name@,
                email: email@,
                seconds: seconds as int,
                offset: minutes * 60,
            }),
    {
        let wide: i64 = (minutes as i64) * 60;
        if wide < (i32::MIN as i64) || wide > (i32::MAX as i64) {
            None
        } else {
            Some(Identity { name, email, seconds, offset: wide as i32 })
        }
    }

    /// The offset in whole minutes, rounded towards zero.
    pub fn offset_in_minutes(&self) -> (minutes: i32)
        ensures
            minutes == offset_minutes(self.offset as int),
    {
        let wide: i64 = self.offset as i64;
        if wide >= 0 {
            (wide / 60) as i32
        } else {
            let positive: i64 = -wide;
            (-(positive / 60)) as i32
        }
    }

    /// A copy of this identity.
    pub fn duplicate(&self) -> (copy: Identity)
        ensures
            copy@ == self@,
    {
        Identity {
            name: copy_bytes(&self.name),
            email: copy_bytes(&self.email),
            seconds: self.seconds,
            offset: self.offset,
        }
    }
}

impl BaseCommit {
    /// The base commit with the given tree, parents, author and committer.
    pub fn new(tree: ObjectId, parents: Vec<ObjectId>, author: Identity, committer: Identity) -> (base:
        BaseCommit)
        ensures
            base@ == (BaseView {
                tree: tree@,
                parents: ids_view(parents@),
                author: author@,
                committer: committer@,
            }),
    {
        BaseCommit { tree, parents, author, committer }
    }

    /// A copy of this base commit.
    pub fn duplicate(&self) -> (copy: BaseCommit)
        ensures
            copy@ == self@,
    {
        BaseCommit {
            tree: self.tree,
            parents: copy_ids(&self.parents),
            author: self.author.duplicate(),
            committer: self.committer.duplicate(),
        }
    }

    /// The commit that is modelled on this one and says `message`.
    pub fn synthesize(&self, message: String) -> (record: CommitRecord)
        ensures
            record@ == synthesized(self@, message@),
    {
        CommitRecord {
            tree: self.tree,
            parents: copy_ids(&self.parents),
            author: self.author.duplicate(),
            committer: self.committer.duplicate(),
            message,
        }
    }
}

/// Commits modelled on one base differ exactly where their messages differ.
pub proof fn lemma_synthesized_injective(base: BaseView, m1: Seq<char>, m2: Seq<char>)
    ensures
        synthesized(base, m1) == synthesized(base, m2) <==> m1 == m2,
{
}

} // verus!
