//! The ballot and its layout in account data.

use vstd::prelude::*;
use vstd::bytes::{spec_u32_to_le_bytes, spec_u64_to_le_bytes};
use vstd::slice::slice_subrange;
use vstd::utf8::{decode_utf8, encode_utf8, valid_utf8};
use crate::address::Address;
use crate::voting::state::flag;
use crate::wire::{
    field, get_address, get_u32, get_u64, get_u8, has_room, holds, put_address, put_bytes,
    put_u32, put_u64, string_from_utf8, u32_at, u64_at,
};

verus! {

/// One proposal that people can vote on.
#[derive(Clone, Debug, PartialEq, Eq)]
pub struct Proposal {
    /// The name of the proposal.
    pub name: String,
    /// The weight of all votes that it has received.
    pub vote_count: u64,
}

/// The model of [`Proposal`].
pub struct ProposalState {
    pub name: Seq<char>,
    pub vote_count: u64,
}

impl View for Proposal {
    type V = ProposalState;

    open spec fn view(&self) -> ProposalState {
        ProposalState { name: self.name@, vote_count: self.vote_count }
    }
}

/// A ballot: who chairs it and what can be voted on.
#[derive(Clone, Debug, PartialEq, Eq)]
pub struct Ballot {
    /// Whether the ballot has been opened.
    pub is_initialized: bool,
    /// The only one who can give the right to vote.
    pub chairperson: Address,
    /// What can be voted on.
    pub proposals: Vec<Proposal>,
}

/// The model of [`Ballot`].
pub struct BallotState {
    pub is_initialized: bool,
    pub chairperson: Seq<u8>,
    pub proposals: Seq<ProposalState>,
}

impl View for Ballot {
    type V = BallotState;

    open spec fn view(&self) -> BallotState {
        BallotState {
            is_initialized: self.is_initialized,
            chairperson: self.chairperson@,
            proposals: self.proposals@.map_values(|p: Proposal| p@),
        }
    }
}

/// The layout of a proposal: the name behind its length in bytes, then the
/// count.
pub open spec fn proposal_bytes(p: ProposalState) -> Seq<u8> {
    spec_u32_to_le_bytes(encode_utf8(p.name).len() as u32) + encode_utf8(p.name)
        + spec_u64_to_le_bytes(p.vote_count)
}

/// The layout of a list of proposals, one after the other.
pub open spec fn proposals_bytes(ps: Seq<ProposalState>) -> Seq<u8>
    decreases ps.len(),
{
    if ps.len() == 0 {
        Seq::empty()
    } else {
        proposals_bytes(ps.drop_last()) + proposal_bytes(ps.last())
    }
}

/// The layout of a ballot: the flag, the chairperson, the number of
/// proposals and the proposals.
pub open spec fn ballot_bytes(b: BallotState) -> Seq<u8> {
    seq![flag(b.is_initialized)] + b.chairperson + spec_u32_to_le_bytes(b.proposals.len() as u32)
        + proposals_bytes(b.proposals)
}

/// Whether the layout can hold the ballot: every length fits in 32 bits.
pub open spec fn encodable(b: BallotState) -> bool {
    &&& b.chairperson.len() == 32
    &&& b.proposals.len() <= u32::MAX
    &&& forall|i: int|
        0 <= i < b.proposals.len() ==> encode_utf8(#[trigger] b.proposals[i].name).len()
            <= u32::MAX
}

/// The proposal at `pos`, with the position behind it.
pub open spec fn parse_proposal(s: Seq<u8>, pos: int) -> Option<(ProposalState, int)> {
    if !holds(s, pos, 4) {
        None
    } else {
        let n = u32_at(s, pos) as int;
        if !holds(s, pos + 4, n) || !valid_utf8(field(s, pos + 4, n)) || !holds(
            s,
            pos + 4 + n,
            8,
        ) {
            None
        } else {
            Some(
                (
                    ProposalState {
                        name: decode_utf8(field(s, pos + 4, n)),
                        vote_count: u64_at(s, pos + 4 + n),
                    },
                    pos + 4 + n + 8,
                ),
            )
        }
    }
}

/// The `count` proposals from `pos` on, with the position behind them.
pub open spec fn parse_proposals(s: Seq<u8>, pos: int, count: nat) -> Option<
    (Seq<ProposalState>, int),
>
    decreases count,
{
    if count == 0 {
        Some((Seq::empty(), pos))
    } else {
        match parse_proposals(s, pos, (count - 1) as nat) {
            None => None,
            Some((before, at)) => match parse_proposal(s, at) {
                None => None,
                Some((p, next)) => Some((before.push(p), next)),
            },
        }
    }
}

/// The ballot that `s` holds, if it holds one and nothing else.
pub open spec fn parse_ballot(s: Seq<u8>) -> Option<BallotState> {
    if !holds(s, 0, 37) || s[0] > 1 {
        None
    } else {
        match parse_proposals(s, 37, u32_at(s, 33) as nat) {
            None => None,
            Some((proposals, end)) => if end == s.len() {
                Some(
                    BallotState {
                        is_initialized: s[0] == 1,
                        chairperson: field(s, 1, 32),
                        proposals,
                    },
                )
            } else {
                None
            },
        }
    }
}

/// Where fewer proposals cannot be read, more cannot either.
pub proof fn lemma_parse_fails_on(s: Seq<u8>, pos: int, fewer: nat, count: nat)
    requires
        fewer <= count,
        parse_proposals(s, pos, fewer) is None,
    ensures
        parse_proposals(s, pos, count) is None,
    decreases count,
{
    if fewer < count {
        lemma_parse_fails_on(s, pos, fewer, (count - 1) as nat);
    }
}

/// Reads the proposal at `pos`, and says where it ends.
pub fn read_proposal(data: &[u8], pos: usize) -> (r: Option<(Proposal, usize)>)
    ensures
        match r {
            Some((p, next)) => parse_proposal(data@, pos as int) == Some((p@, next as int)),
            None => parse_proposal(data@, pos as int) is None,
        },
{
    let n: usize = match get_u32(data, pos) {
        Some(n) => n as usize,
        None => {
            return None;
        },
    };
    let start: usize = pos + 4;
    if !has_room(data, start, n) {
        return None;
    }
    let mut raw: Vec<u8> = Vec::new();
    put_bytes(&mut raw, slice_subrange(data, start, start + n));
    assert(raw@ =~= field(data@, start as int, n as int));
    let name: String = match string_from_utf8(raw) {
        Some(name) => name,
        None => {
            return None;
        },
    };
    let vote_count: u64 = match get_u64(data, start + n) {
        Some(c) => c,
        None => {
            return None;
        },
    };
    Some((Proposal { name, vote_count }, start + n + 8))
}

impl Ballot {
    /// Reads a ballot from `data`, which must hold it and nothing else.
    ///
    /// `None` where a byte is missing, the flag is neither zero nor one, a
    /// name is not valid UTF-8, or bytes are left over.
    pub fn try_from_slice(data: &[u8]) -> (r: Option<Ballot>)
        ensures
            match r {
                Some(b) => parse_ballot(data@) == Some(b@),
                None => parse_ballot(data@) is None,
            },
    {
        let is_initialized: bool = match get_u8(data, 0) {
            Some(0) => false,
            Some(1) => true,
            _ => {
                return None;
            },
        };
        let chairperson: Address = match get_address(data, 1) {
            Some(a) => a,
            None => {
                return None;
            },
        };
        let count: u32 = match get_u32(data, 33) {
            Some(n) => n,
            None => {
                return None;
            },
        };
        let mut proposals: Vec<Proposal> = Vec::new();
        let mut pos: usize = 37;
        let mut i: u32 = 0;
        while i < count
            invariant
                i <= count,
                holds(data@, 0, 37),
                data@[0] <= 1,
                count == u32_at(data@, 33),
                parse_proposals(data@, 37, i as nat) == Some(
                    (proposals@.map_values(|p: Proposal| p@), pos as int),
                ),
            decreases count - i,
        {
            match read_proposal(data, pos) {
                None => {
                    proof {
                        assert(parse_proposals(data@, 37, (i + 1) as nat) is None);
                        lemma_parse_fails_on(data@, 37, (i + 1) as nat, count as nat);
                    }
                    return None;
                },
                Some((p, next)) => {
                    proof {
                        let before = proposals@.map_values(|p: Proposal| p@);
                        assert(proposals@.push(p).map_values(|p: Proposal| p@) =~= before.push(
                            p@,
                        ));
                    }
                    proposals.push(p);
                    pos = next;
                },
            }
            i += 1;
        }
        if pos != data.len() {
            return None;
        }
        Some(Ballot { is_initialized, chairperson, proposals })
    }

    /// Lays the ballot out in bytes.
    ///
    /// `None` exactly where the layout cannot hold it: it has more than
    /// `u32::MAX` proposals, or a name of more than `u32::MAX` bytes.
    pub fn try_to_vec(&self) -> (r: Option<Vec<u8>>)
        ensures
            match r {
                Some(bytes) => encodable(self@) && bytes@ == ballot_bytes(self@),
                None => !encodable(self@),
            },
    {
        let mut out: Vec<u8> = Vec::new();
        out.push(if self.is_initialized {
            1
        } else {
            0
        });
        put_address(&mut out, &self.chairperson);
        if self.proposals.len() > u32::MAX as usize {
            return None;
        }
        put_u32(&mut out, self.proposals.len() as u32);
        let ghost head = out@;
        let ghost all = self@.proposals;
        let mut i: usize = 0;
        while i < self.proposals.len()
            invariant
                i <= self.proposals.len(),
                all == self@.proposals,
                all.len() == self.proposals.len(),
                out@ == head + proposals_bytes(all.subrange(0, i as int)),
                forall|j: int| 0 <= j < i ==> encode_utf8(#[trigger] all[j].name).len() <= u32::MAX,
            decreases self.proposals.len() - i,
        {
            let p = &self.proposals[i];
            let name = p.name.as_str().as_bytes();
            if name.len() > u32::MAX as usize {
                assert(encode_utf8(all[i as int].name).len() > u32::MAX);
                return None;
            }
            put_u32(&mut out, name.len() as u32);
            put_bytes(&mut out, name);
            put_u64(&mut out, p.vote_count);
            proof {
                let upto = all.subrange(0, i + 1);
                assert(upto.drop_last() =~= all.subrange(0, i as int));
                assert(upto.last() == all[i as int]);
                assert(out@ =~= head + proposals_bytes(upto));
            }
            i += 1;
        }
        assert(all.subrange(0, all.len() as int) =~= all);
        assert(out@ =~= ballot_bytes(self@));
        Some(out)
    }

    /// The number of bytes that the ballot takes in account data.
    pub fn serialized_size(&self) -> (r: usize)
        requires
            encodable(self@),
        ensures
            r == ballot_bytes(self@).len(),
    {
        match self.try_to_vec() {
            Some(bytes) => bytes.len(),
            None => 0,
        }
    }
}

/// The layout of two lists of proposals, one after the other, is the layout
/// of the one list.
pub proof fn lemma_proposals_bytes_add(a: Seq<ProposalState>, b: Seq<ProposalState>)
    ensures
        proposals_bytes(a + b) == proposals_bytes(a) + proposals_bytes(b),
    decreases b.len(),
{
    if b.len() == 0 {
        assert(a + b =~= a);
        assert(proposals_bytes(a) + proposals_bytes(b) =~= proposals_bytes(a));
    } else {
        lemma_proposals_bytes_add(a, b.drop_last());
        assert((a + b).drop_last() =~= a + b.drop_last());
        assert((a + b).last() == b.last());
        assert(proposals_bytes(a + b) =~= proposals_bytes(a) + proposals_bytes(b));
    }
}

/// A proposal that has been laid out can be read again where it stands,
/// whatever stands before and behind it.
pub proof fn lemma_parse_proposal_bytes(before: Seq<u8>, p: ProposalState, behind: Seq<u8>)
    requires
        encode_utf8(p.name).len() <= u32::MAX,
    ensures
        parse_proposal(before + proposal_bytes(p) + behind, before.len() as int) == Some(
            (p, (before.len() + proposal_bytes(p).len()) as int),
        ),
{
    vstd::bytes::lemma_auto_spec_u32_to_from_le_bytes();
    vstd::bytes::lemma_auto_spec_u64_to_from_le_bytes();
    vstd::utf8::encode_utf8_valid_utf8(p.name);
    vstd::utf8::encode_utf8_decode_utf8(p.name);
    let s = before + proposal_bytes(p) + behind;
    let at = before.len() as int;
    let raw = encode_utf8(p.name);
    let n = raw.len() as int;
    assert(field(s, at, 4) =~= spec_u32_to_le_bytes(n as u32));
    assert(u32_at(s, at) == n as u32);
    assert(field(s, at + 4, n) =~= raw);
    assert(field(s, at + 4 + n, 8) =~= spec_u64_to_le_bytes(p.vote_count));
}

/// The first proposals of a list that has been laid out can be read again,
/// whatever stands before and behind the list.
pub proof fn lemma_parse_proposals_bytes(
    before: Seq<u8>,
    ps: Seq<ProposalState>,
    behind: Seq<u8>,
    count: nat,
)
    requires
        count <= ps.len(),
        forall|i: int| 0 <= i < ps.len() ==> encode_utf8(#[trigger] ps[i].name).len() <= u32::MAX,
    ensures
        parse_proposals(before + proposals_bytes(ps) + behind, before.len() as int, count) == Some(
            (
                ps.subrange(0, count as int),
                (before.len() + proposals_bytes(ps.subrange(0, count as int)).len()) as int,
            ),
        ),
    decreases count,
{
    let s = before + proposals_bytes(ps) + behind;
    if count == 0 {
        assert(ps.subrange(0, 0) =~= Seq::<ProposalState>::empty());
    } else {
        let k = (count - 1) as nat;
        lemma_parse_proposals_bytes(before, ps, behind, k);
        let done = ps.subrange(0, k as int);
        let p = ps[k as int];
        let rest = ps.subrange(count as int, ps.len() as int);
        assert(ps =~= done.push(p) + rest);
        lemma_proposals_bytes_add(done.push(p), rest);
        assert(done.push(p).drop_last() =~= done);
        assert(proposals_bytes(done.push(p)) == proposals_bytes(done) + proposal_bytes(p));
        lemma_parse_proposal_bytes(
            before + proposals_bytes(done),
            p,
            proposals_bytes(rest) + behind,
        );
        assert(s =~= (before + proposals_bytes(done)) + proposal_bytes(p) + (proposals_bytes(rest)
            + behind));
        assert(ps.subrange(0, count as int) =~= done.push(p));
    }
}

/// A ballot that has been laid out can be read again.
pub proof fn lemma_parse_ballot_bytes(b: BallotState)
    requires
        encodable(b),
    ensures
        parse_ballot(ballot_bytes(b)) == Some(b),
{
    vstd::bytes::lemma_auto_spec_u32_to_from_le_bytes();
    let s = ballot_bytes(b);
    let head = seq![flag(b.is_initialized)] + b.chairperson + spec_u32_to_le_bytes(
        b.proposals.len() as u32,
    );
    assert(head.len() == 37);
    assert(s =~= head + proposals_bytes(b.proposals) + Seq::<u8>::empty());
    lemma_parse_proposals_bytes(head, b.proposals, Seq::empty(), b.proposals.len());
    assert(b.proposals.subrange(0, b.proposals.len() as int) =~= b.proposals);
    assert(field(s, 33, 4) =~= spec_u32_to_le_bytes(b.proposals.len() as u32));
    assert(field(s, 1, 32) =~= b.chairperson);
    assert(s[0] == flag(b.is_initialized));
}

/// A proposal that has been read is what the bytes at its place say: laid
/// out again, it gives those bytes.
pub proof fn lemma_proposal_bytes_parse(s: Seq<u8>, pos: int)
    requires
        parse_proposal(s, pos) is Some,
    ensures
        ({
            let (p, next) = parse_proposal(s, pos)->0;
            &&& 0 <= pos <= next <= s.len()
            &&& encode_utf8(p.name).len() <= u32::MAX
            &&& s.subrange(pos, next) == proposal_bytes(p)
        }),
{
    vstd::bytes::lemma_auto_spec_u32_to_from_le_bytes();
    vstd::bytes::lemma_auto_spec_u64_to_from_le_bytes();
    let (p, next) = parse_proposal(s, pos)->0;
    let n = u32_at(s, pos) as int;
    let raw = field(s, pos + 4, n);
    vstd::utf8::decode_utf8_encode_utf8(raw);
    assert(encode_utf8(p.name) == raw);
    assert(spec_u32_to_le_bytes(n as u32) == field(s, pos, 4));
    assert(spec_u64_to_le_bytes(p.vote_count) == field(s, pos + 4 + n, 8));
    assert(s.subrange(pos, next) =~= proposal_bytes(p));
}

/// Proposals that have been read are what the bytes at their place say:
/// laid out again, they give those bytes.
pub proof fn lemma_proposals_bytes_parse(s: Seq<u8>, pos: int, count: nat)
    requires
        0 <= pos <= s.len(),
        parse_proposals(s, pos, count) is Some,
    ensures
        ({
            let (ps, end) = parse_proposals(s, pos, count)->0;
            &&& pos <= end <= s.len()
            &&& ps.len() == count
            &&& forall|i: int|
                0 <= i < ps.len() ==> encode_utf8(#[trigger] ps[i].name).len() <= u32::MAX
            &&& s.subrange(pos, end) == proposals_bytes(ps)
        }),
    decreases count,
{
    if count == 0 {
        assert(s.subrange(pos, pos) =~= Seq::<u8>::empty());
    } else {
        let k = (count - 1) as nat;
        lemma_proposals_bytes_parse(s, pos, k);
        let (before, at) = parse_proposals(s, pos, k)->0;
        lemma_proposal_bytes_parse(s, at);
        let (p, next) = parse_proposal(s, at)->0;
        let ps = before.push(p);
        assert(ps.drop_last() =~= before);
        assert(s.subrange(pos, next) =~= s.subrange(pos, at) + s.subrange(at, next));
    }
}

/// A ballot that has been read is what the bytes say: it can be laid out,
/// and laid out again it gives those bytes.
pub proof fn lemma_ballot_bytes_parse(s: Seq<u8>)
    requires
        parse_ballot(s) is Some,
    ensures
        encodable(parse_ballot(s)->0),
        ballot_bytes(parse_ballot(s)->0) == s,
{
    vstd::bytes::lemma_auto_spec_u32_to_from_le_bytes();
    let b = parse_ballot(s)->0;
    let count = u32_at(s, 33) as nat;
    lemma_proposals_bytes_parse(s, 37, count);
    assert(spec_u32_to_le_bytes(b.proposals.len() as u32) == field(s, 33, 4));
    assert(s =~= seq![flag(b.is_initialized)] + b.chairperson + field(s, 33, 4) + s.subrange(
        37,
        s.len() as int,
    ));
}

/// The length of a list of proposals in bytes depends on the names alone.
pub proof fn lemma_proposals_bytes_len(a: Seq<ProposalState>, b: Seq<ProposalState>)
    requires
        a.len() == b.len(),
        forall|i: int| 0 <= i < a.len() ==> (#[trigger] a[i]).name == b[i].name,
    ensures
        proposals_bytes(a).len() == proposals_bytes(b).len(),
    decreases a.len(),
{
    vstd::bytes::lemma_auto_spec_u32_to_from_le_bytes();
    vstd::bytes::lemma_auto_spec_u64_to_from_le_bytes();
    if a.len() > 0 {
        assert(a.last().name == b.last().name);
        lemma_proposals_bytes_len(a.drop_last(), b.drop_last());
    }
}

} // verus!
