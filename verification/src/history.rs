//! The log of what was said, one conversation for each peer.

use crate::address::Address;
use vstd::prelude::*;
use vstd::string::StringExecFns;

verus! {

/// What a list of entries holds: for each entry whether this side sent it,
/// and its text.
pub open spec fn entries_view(entries: Seq<(bool, String)>) -> Seq<(bool, Seq<char>)> {
    Seq::new(entries.len(), |i: int| (entries[i].0, entries[i].1@))
}

/// The conversation with `peer` in `log`: empty where nothing was said yet.
pub open spec fn conversation(
    log: Map<Address, Seq<(bool, Seq<char>)>>,
    peer: Address,
) -> Seq<(bool, Seq<char>)> {
    if log.dom().contains(peer) {
        log[peer]
    } else {
        Seq::empty()
    }
}

/// The conversation with `peer` in `log`, if anything was said in it.
pub open spec fn lookup(log: Map<Address, Seq<(bool, Seq<char>)>>, peer: Address) -> Option<
    Seq<(bool, Seq<char>)>,
> {
    if log.dom().contains(peer) {
        Some(log[peer])
    } else {
        None
    }
}

/// What a copy of a conversation holds, where there is one.
pub open spec fn found_view(found: Option<Vec<(bool, String)>>) -> Option<Seq<(bool, Seq<char>)>> {
    match found {
        Some(entries) => Some(entries_view(entries@)),
        None => None,
    }
}

/// `log` after one more entry in the conversation with `peer`.
pub open spec fn appended(
    log: Map<Address, Seq<(bool, Seq<char>)>>,
    peer: Address,
    outgoing: bool,
    text: Seq<char>,
) -> Map<Address, Seq<(bool, Seq<char>)>> {
    log.insert(peer, conversation(log, peer).push((outgoing, text)))
}

/// What a list of lines holds.
pub open spec fn lines_view(lines: Seq<String>) -> Seq<Seq<char>> {
    Seq::new(lines.len(), |i: int| lines[i]@)
}

/// The line that shows an entry to the user: what this side sent stands as it
/// is, what the peer sent is marked as a message.
pub open spec fn line_of(entry: (bool, Seq<char>)) -> Seq<char> {
    if entry.0 {
        entry.1
    } else {
        "Message: "@ + entry.1
    }
}

/// The lines that show a conversation to the user, one for each entry.
pub open spec fn transcript_of(entries: Seq<(bool, Seq<char>)>) -> Seq<Seq<char>> {
    Seq::new(entries.len(), |i: int| line_of(entries[i]))
}

/// The lines that show a conversation to the user, oldest entry first.
pub fn transcript(entries: &Vec<(bool, String)>) -> (lines: Vec<String>)
    ensures
        lines@.len() == entries@.len(),
        lines_view(lines@) == transcript_of(entries_view(entries@)),
{
    let mut lines: Vec<String> = Vec::new();
    let mut i: usize = 0;
    while i < entries.len()
        invariant
            i <= entries@.len(),
            lines@.len() == i,
            forall|j: int|
                0 <= j < i ==> lines@[j]@ == line_of(#[trigger] entries_view(entries@)[j]),
        decreases entries@.len() - i,
    {
        let line: String = if entries[i].0 {
            entries[i].1.clone()
        } else {
            "Message: ".to_owned().concat(entries[i].1.as_str())
        };
        lines.push(line);
        i += 1;
    }
    assert(lines_view(lines@) =~= transcript_of(entries_view(entries@)));
    lines
}

/// The entries exchanged with one peer, oldest first.
#[derive(Debug)]
struct Conversation {
    peer: Address,
    entries: Vec<(bool, String)>,
}

/// The conversations of a session, keyed by peer.
///
/// A conversation starts with its first entry and only grows. No peer has two
/// conversations.
#[derive(Debug)]
pub struct History {
    conversations: Vec<Conversation>,
}

/// Whether the conversation at `i` is the one with `peer`.
spec fn is_at(conversations: Seq<Conversation>, peer: Address, i: int) -> bool {
    0 <= i < conversations.len() && conversations[i].peer == peer
}

/// Whether no peer has two conversations and no conversation is empty.
spec fn well_formed(conversations: Seq<Conversation>) -> bool {
    &&& forall|i: int, j: int|
        0 <= i < j < conversations.len() ==> conversations[i].peer != conversations[j].peer
    &&& forall|i: int| 0 <= i < conversations.len() ==> conversations[i].entries@.len() > 0
}

/// The conversations as a map from peer to entries.
spec fn log_of(conversations: Seq<Conversation>) -> Map<Address, Seq<(bool, Seq<char>)>> {
    Map::new(
        |peer: Address| exists|i: int| is_at(conversations, peer, i),
        |peer: Address|
            entries_view(conversations[choose|i: int| is_at(conversations, peer, i)].entries@),
    )
}

/// The conversation at `i` is what the log holds for its peer.
proof fn lemma_log_at(conversations: Seq<Conversation>, i: int)
    requires
        well_formed(conversations),
        0 <= i < conversations.len(),
    ensures
        log_of(conversations).dom().contains(conversations[i].peer),
        log_of(conversations)[conversations[i].peer] == entries_view(conversations[i].entries@),
{
    let peer = conversations[i].peer;
    assert(is_at(conversations, peer, i));
    let chosen = choose|j: int| is_at(conversations, peer, j);
    assert(chosen == i);
}

/// One more entry in the conversation at `i` is one more entry for its peer
/// in the log, and nothing else changes.
proof fn lemma_entry_added(
    before: Seq<Conversation>,
    after: Seq<Conversation>,
    i: int,
    outgoing: bool,
    text: Seq<char>,
)
    requires
        well_formed(before),
        0 <= i < before.len(),
        after.len() == before.len(),
        forall|j: int| 0 <= j < before.len() && j != i ==> after[j] == before[j],
        after[i].peer == before[i].peer,
        entries_view(after[i].entries@) == entries_view(before[i].entries@).push(
            (outgoing, text),
        ),
    ensures
        well_formed(after),
        log_of(after) == appended(log_of(before), before[i].peer, outgoing, text),
{
    let peer = before[i].peer;
    let expected = appended(log_of(before), peer, outgoing, text);
    assert forall|j: int| 0 <= j < after.len() implies after[j].peer == before[j].peer by {}
    assert(after[i].entries@.len() == entries_view(after[i].entries@).len());
    assert forall|other: Address|
        log_of(after).dom().contains(other) == #[trigger] expected.dom().contains(other) by {
        if exists|j: int| is_at(after, other, j) {
            let j = choose|j: int| is_at(after, other, j);
            assert(is_at(before, other, j));
        }
        if exists|j: int| is_at(before, other, j) {
            let j = choose|j: int| is_at(before, other, j);
            assert(is_at(after, other, j));
        }
        assert(is_at(after, peer, i));
    }
    assert forall|other: Address| #[trigger]
        log_of(after).dom().contains(other) implies log_of(after)[other] == expected[other] by {
        let j = choose|j: int| is_at(after, other, j);
        lemma_log_at(after, j);
        lemma_log_at(before, j);
    }
    assert(log_of(after) =~= expected);
}

/// A new conversation with its first entry is that entry for its peer in the
/// log, and nothing else changes.
proof fn lemma_conversation_started(
    before: Seq<Conversation>,
    after: Seq<Conversation>,
    peer: Address,
    outgoing: bool,
    text: Seq<char>,
)
    requires
        well_formed(before),
        forall|j: int| !is_at(before, peer, j),
        after.len() == before.len() + 1,
        forall|j: int| 0 <= j < before.len() ==> after[j] == before[j],
        after.last().peer == peer,
        entries_view(after.last().entries@) == seq![(outgoing, text)],
    ensures
        well_formed(after),
        log_of(after) == appended(log_of(before), peer, outgoing, text),
{
    let last = before.len() as int;
    let expected = appended(log_of(before), peer, outgoing, text);
    assert forall|j: int| 0 <= j < last implies after[j].peer != peer by {
        assert(!is_at(before, peer, j));
    }
    assert(after[last].entries@.len() == entries_view(after[last].entries@).len());
    assert forall|other: Address|
        log_of(after).dom().contains(other) == #[trigger] expected.dom().contains(other) by {
        if exists|j: int| is_at(after, other, j) {
            let j = choose|j: int| is_at(after, other, j);
            if j < last {
                assert(is_at(before, other, j));
            }
        }
        if exists|j: int| is_at(before, other, j) {
            let j = choose|j: int| is_at(before, other, j);
            assert(is_at(after, other, j));
        }
        assert(is_at(after, peer, last));
    }
    assert forall|other: Address| #[trigger]
        log_of(after).dom().contains(other) implies log_of(after)[other] == expected[other] by {
        let j = choose|j: int| is_at(after, other, j);
        lemma_log_at(after, j);
        if j < last {
            lemma_log_at(before, j);
        } else {
            assert(!log_of(before).dom().contains(peer));
            assert(seq![(outgoing, text)] =~= Seq::<(bool, Seq<char>)>::empty().push(
                (outgoing, text),
            ));
        }
    }
    assert(log_of(after) =~= expected);
}

impl View for History {
    type V = Map<Address, Seq<(bool, Seq<char>)>>;

    closed spec fn view(&self) -> Map<Address, Seq<(bool, Seq<char>)>> {
        log_of(self.conversations@)
    }
}

impl History {
    #[verifier::type_invariant]
    spec fn inv(self) -> bool {
        well_formed(self.conversations@)
    }

    /// A log without conversations.
    pub fn new() -> (history: History)
        ensures
            history@ == Map::<Address, Seq<(bool, Seq<char>)>>::empty(),
    {
        let history = History { conversations: Vec::new() };
        assert(history@ =~= Map::<Address, Seq<(bool, Seq<char>)>>::empty());
        history
    }

    /// Where the conversation with `peer` stands, if there is one.
    fn position(&self, peer: Address) -> (found: Option<usize>)
        ensures
            (match found {
                Some(i) => is_at(self.conversations@, peer, i as int),
                None => forall|i: int| !is_at(self.conversations@, peer, i),
            }),
    {
        let mut i: usize = 0;
        while i < self.conversations.len()
            invariant
                i <= self.conversations@.len(),
                forall|j: int| 0 <= j < i ==> self.conversations@[j].peer != peer,
            decreases self.conversations@.len() - i,
        {
            if self.conversations[i].peer == peer {
                return Some(i);
            }
            i += 1;
        }
        None
    }

    /// Adds an entry at the end of the conversation with `peer`, which starts
    /// with it where there was none. Every other conversation stays as it is.
    pub fn record(&mut self, peer: Address, outgoing: bool, text: String)
        ensures
            final(self)@ == appended(old(self)@, peer, outgoing, text@),
    {
        proof {
            use_type_invariant(&*self);
        }
        let ghost before = self.conversations@;
        let found: Option<usize> = self.position(peer);
        let mut conversations: Vec<Conversation> = Vec::new();
        core::mem::swap(&mut conversations, &mut self.conversations);
        match found {
            Some(i) => {
                conversations[i].entries.push((outgoing, text));
                proof {
                    assert(entries_view(conversations@[i as int].entries@) =~= entries_view(
                        before[i as int].entries@,
                    ).push((outgoing, text@)));
                    lemma_entry_added(before, conversations@, i as int, outgoing, text@);
                }
            },
            None => {
                let mut entries: Vec<(bool, String)> = Vec::new();
                entries.push((outgoing, text));
                conversations.push(Conversation { peer, entries });
                proof {
                    assert(entries_view(conversations@.last().entries@) =~= seq![
                        (outgoing, text@),
                    ]);
                    lemma_conversation_started(before, conversations@, peer, outgoing, text@);
                }
            },
        }
        self.conversations = conversations;
    }

    /// A copy of the conversation with `peer`, oldest entry first, if
    /// anything was said in it.
    pub fn get(&self, peer: Address) -> (found: Option<Vec<(bool, String)>>)
        ensures
            found_view(found) == lookup(self@, peer),
    {
        proof {
            use_type_invariant(self);
        }
        match self.position(peer) {
            Some(i) => {
                let entries = &self.conversations[i].entries;
                let mut copy: Vec<(bool, String)> = Vec::new();
                let mut k: usize = 0;
                while k < entries.len()
                    invariant
                        k <= entries@.len(),
                        copy@.len() == k,
                        forall|j: int|
                            0 <= j < k ==> copy@[j].0 == entries@[j].0 && copy@[j].1@
                                == entries@[j].1@,
                    decreases entries@.len() - k,
                {
                    let outgoing: bool = entries[k].0;
                    let text: String = entries[k].1.clone();
                    copy.push((outgoing, text));
                    k += 1;
                }
                proof {
                    lemma_log_at(self.conversations@, i as int);
                    assert(entries_view(copy@) =~= entries_view(entries@));
                }
                Some(copy)
            },
            None => None,
        }
    }
}

} // verus!
