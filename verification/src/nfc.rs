use crate::error::Error;
use crate::raw_card::{lemma_raw_card_len, CardID, RawCard};
use vstd::prelude::*;

verus! {

broadcast use vstd::array::group_array_axioms;

/// Bytes in one page of tag memory.
pub const PAGE_SIZE: usize = 4;

/// The last page of user memory on an NTAG215.
pub const USER_PAGE_END: u8 = 0x81;

/// The first page of user memory.
pub const USER_PAGE_START: u8 = 0x04;

/// The tag command that writes one page.
pub const WRITE_CMD: u8 = 0xA2;

/// The tag command that reads four pages.
pub const READ_CMD: u8 = 0x30;

/// Bytes of a raw card.
pub const CARD_SIZE: usize = 44;

/// Pages that a raw card takes.
pub const PAGES_NEEDED: usize = 11;

/// Bytes of a raw card padded to whole pages.
pub const PADDED_SIZE: usize = 44;

/// READ commands needed to fetch a raw card (each returns four pages).
pub const READS_NEEDED: usize = 3;

/// Bytes that the READ commands return in all.
pub const RX_BUF_SIZE: usize = 48;

/// How the layout sizes follow from one another: a card fills `PAGES_NEEDED` pages
/// (rounded up), four-page reads cover those pages (rounded up), and they fit in the
/// tag's user memory.
pub proof fn lemma_layout()
    ensures
        CARD_SIZE == 44,
        PAGES_NEEDED * PAGE_SIZE >= CARD_SIZE,
        (PAGES_NEEDED - 1) * PAGE_SIZE < CARD_SIZE,
        PADDED_SIZE == PAGES_NEEDED * PAGE_SIZE,
        READS_NEEDED * 4 >= PAGES_NEEDED,
        (READS_NEEDED - 1) * 4 < PAGES_NEEDED,
        RX_BUF_SIZE == READS_NEEDED * 16,
        PAGES_NEEDED <= USER_PAGE_END - USER_PAGE_START + 1,
{
}

/// The READ command for the `i`-th four-page chunk of a card.
pub open spec fn read_command(i: int) -> Seq<u8> {
    seq![READ_CMD, (USER_PAGE_START + 4 * i) as u8]
}

/// The WRITE command for page `page` with the four bytes `data`.
pub open spec fn page_command(page: u8, data: Seq<u8>) -> Seq<u8> {
    seq![WRITE_CMD, page] + data
}

/// A card's bytes padded with zeros to whole pages.
pub open spec fn padded(card: Seq<u8>) -> Seq<u8> {
    card + Seq::new((PADDED_SIZE - card.len()) as nat, |i: int| 0u8)
}

/// The WRITE command for the `i`-th page of a card.
pub open spec fn write_command(card: Seq<u8>, i: int) -> Seq<u8> {
    page_command((USER_PAGE_START + i) as u8, padded(card).subrange(4 * i, 4 * i + 4))
}

/// The WRITE command that puts `data` on page `page`, which must lie in user memory.
pub fn page_write_command(page: u8, data: &[u8; 4]) -> (r: [u8; 6])
    requires
        page <= USER_PAGE_END,
    ensures
        r@ == page_command(page, data@),
{
    let r = [WRITE_CMD, page, data[0], data[1], data[2], data[3]];
    assert(r@ =~= page_command(page, data@));
    r
}

/// The WRITE commands that put a card on a tag, one per page, in page order.
pub fn write_commands(card: &RawCard) -> (r: Vec<[u8; 6]>)
    ensures
        r@.len() == PAGES_NEEDED,
        forall|i: int| 0 <= i < PAGES_NEEDED ==> #[trigger] r@[i]@ == write_command(card@, i),
{
    let bytes = card.as_slice();
    proof {
        lemma_raw_card_len(*card);
        assert(padded(card@) =~= card@);
    }
    let mut out: Vec<[u8; 6]> = Vec::new();
    let mut i: usize = 0;
    while i < PAGES_NEEDED
        invariant
            i <= PAGES_NEEDED,
            bytes@ == card@,
            bytes@.len() == 44,
            padded(card@) == card@,
            out@.len() == i,
            forall|k: int| 0 <= k < i ==> #[trigger] out@[k]@ == write_command(card@, k),
        decreases PAGES_NEEDED - i,
    {
        let data = [bytes[4 * i], bytes[4 * i + 1], bytes[4 * i + 2], bytes[4 * i + 3]];
        let page = USER_PAGE_START + i as u8;
        let cmd = page_write_command(page, &data);
        proof {
            assert(data@ =~= padded(card@).subrange(4 * i, 4 * i + 4));
        }
        out.push(cmd);
        i = i + 1;
    }
    out
}

/// The bytes received from a tag while reading a card, chunk by chunk.
pub struct CardReadout {
    rx: Vec<u8>,
}

impl View for CardReadout {
    type V = Seq<u8>;

    closed spec fn view(&self) -> Seq<u8> {
        self.rx@
    }
}

impl CardReadout {
    #[verifier::type_invariant]
    spec fn whole_chunks(self) -> bool {
        self.rx@.len() % 16 == 0 && self.rx@.len() <= RX_BUF_SIZE
    }

    /// A readout that has received nothing yet.
    pub fn new() -> (r: Self)
        ensures
            r@ == Seq::<u8>::empty(),
    {
        CardReadout { rx: Vec::new() }
    }

    /// The next READ command to send, or nothing once all chunks have arrived.
    pub fn next_command(&self) -> (r: Option<[u8; 2]>)
        ensures
            self@.len() % 16 == 0,
            self@.len() <= RX_BUF_SIZE,
            r is Some <==> self@.len() < RX_BUF_SIZE,
            r matches Some(c) ==> c@ == read_command(self@.len() as int / 16),
    {
        proof {
            use_type_invariant(self);
        }
        if self.rx.len() < RX_BUF_SIZE {
            let i = self.rx.len() / 16;
            let cmd = [READ_CMD, USER_PAGE_START + (4 * i) as u8];
            assert(cmd@ =~= read_command(self@.len() as int / 16));
            Some(cmd)
        } else {
            None
        }
    }

    /// Takes the tag's answer to the pending READ command: it must be one chunk of 16
    /// bytes, or it is refused and nothing changes.
    pub fn accept(&mut self, response: &[u8]) -> (r: bool)
        requires
            old(self)@.len() < RX_BUF_SIZE,
        ensures
            r == (response@.len() == 16),
            r ==> final(self)@ == old(self)@ + response@,
            !r ==> final(self)@ == old(self)@,
    {
        proof {
            use_type_invariant(&*self);
        }
        if response.len() != 16 {
            return false;
        }
        let mut rx = Vec::new();
        std::mem::swap(&mut rx, &mut self.rx);
        rx.extend_from_slice(response);
        self.rx = rx;
        true
    }

    /// The card laid out in the first 44 bytes received, once all chunks have arrived.
    pub fn finish(&self) -> (r: Option<RawCard>)
        ensures
            r is Some <==> self@.len() == RX_BUF_SIZE,
            r matches Some(c) ==> c@ == self@.subrange(0, CARD_SIZE as int),
    {
        if self.rx.len() != RX_BUF_SIZE {
            return None;
        }
        let mut first: Vec<u8> = Vec::new();
        let mut i: usize = 0;
        while i < CARD_SIZE
            invariant
                self@.len() == RX_BUF_SIZE,
                i <= CARD_SIZE,
                first@ == self@.subrange(0, i as int),
            decreases CARD_SIZE - i,
        {
            first.push(self.rx[i]);
            proof {
                assert(first@ =~= self@.subrange(0, i + 1));
            }
            i = i + 1;
        }
        RawCard::from_bytes(first.as_slice())
    }
}

/// Which caller polls for a card: `App::poll_once`, or the `Incoming` iterator.
#[derive(Debug, Clone, Copy, PartialEq, Eq, Structural)]
pub enum PollMode {
    Once,
    Incoming,
}

/// What a poll of the reader found, as far as the card logic reads it.
#[derive(Debug, Clone, Copy, PartialEq, Eq)]
pub enum Polled {
    /// The reader failed to find or select a target.
    Failed,
    /// An ISO 14443-A target, with its UID.
    Iso14443a([u8; 10]),
    /// A target of another kind.
    Other,
}

/// Where a poll stands.
#[derive(Debug, Clone, Copy, PartialEq, Eq, Structural)]
pub enum PollStage {
    /// Waiting for the outcome of polling for a target.
    AwaitTarget,
    /// Waiting for the outcome of reading the card.
    AwaitRead,
    /// Waiting for the outcome of deselecting the target.
    AwaitDeselect,
    /// Finished.
    Done,
}

/// What the reader does next.
pub enum PollAction {
    /// Read the card on the selected target.
    ReadCard,
    /// Deselect the target.
    Deselect,
    /// Stop with this outcome.
    Finish(Result<(CardID, RawCard), Error>),
}

/// The decisions taken while polling the reader once for a card: the caller polls,
/// reads and deselects as each action asks, and hands back each outcome.
pub struct PollSession {
    pub mode: PollMode,
    pub stage: PollStage,
    pub uid: CardID,
    pub card: Option<RawCard>,
}

impl PollSession {
    /// A poll for the given caller, waiting for the outcome of polling for a target.
    pub fn new(mode: PollMode) -> (r: Self)
        ensures
            r.mode == mode,
            r.stage == PollStage::AwaitTarget,
            r.card is None,
    {
        PollSession { mode, stage: PollStage::AwaitTarget, uid: CardID::new_zeroed(), card: None }
    }

    /// Takes the outcome of polling for a target. Only an ISO 14443-A target is read;
    /// a failed poll is a read error for `poll_once` and an unrecognized card for
    /// `Incoming`.
    pub fn on_target(&mut self, polled: Polled) -> (r: PollAction)
        requires
            old(self).stage == PollStage::AwaitTarget,
        ensures
            final(self).mode == old(self).mode,
            final(self).card == old(self).card,
            match polled {
                Polled::Iso14443a(uid) => {
                    &&& r is ReadCard
                    &&& final(self).stage == PollStage::AwaitRead
                    &&& final(self).uid == CardID(uid)
                },
                Polled::Failed => {
                    &&& final(self).stage == PollStage::Done
                    &&& final(self).uid == old(self).uid
                    &&& (old(self).mode == PollMode::Once ==> r matches PollAction::Finish(
                        Err(Error::NfcReadError),
                    ))
                    &&& (old(self).mode == PollMode::Incoming ==> r matches PollAction::Finish(
                        Err(Error::NfcCardUnrecognized),
                    ))
                },
                Polled::Other => {
                    &&& final(self).stage == PollStage::Done
                    &&& final(self).uid == old(self).uid
                    &&& r matches PollAction::Finish(Err(Error::NfcCardUnrecognized))
                },
            },
    {
        match polled {
            Polled::Iso14443a(uid) => {
                self.uid = CardID(uid);
                self.stage = PollStage::AwaitRead;
                PollAction::ReadCard
            },
            Polled::Failed => {
                self.stage = PollStage::Done;
                match self.mode {
                    PollMode::Once => PollAction::Finish(Err(Error::NfcReadError)),
                    PollMode::Incoming => PollAction::Finish(Err(Error::NfcCardUnrecognized)),
                }
            },
            Polled::Other => {
                self.stage = PollStage::Done;
                PollAction::Finish(Err(Error::NfcCardUnrecognized))
            },
        }
    }

    /// Takes the outcome of reading the card. `Incoming` deselects the target whatever
    /// came back; `poll_once` deselects only after a successful read, and reports a
    /// failed read as a read error at once.
    pub fn on_read(&mut self, card: Option<RawCard>) -> (r: PollAction)
        requires
            old(self).stage == PollStage::AwaitRead,
        ensures
            final(self).mode == old(self).mode,
            final(self).uid == old(self).uid,
            final(self).card == card,
            (old(self).mode == PollMode::Incoming || card is Some) ==> {
                &&& r is Deselect
                &&& final(self).stage == PollStage::AwaitDeselect
            },
            (old(self).mode == PollMode::Once && card is None) ==> {
                &&& r matches PollAction::Finish(Err(Error::NfcReadError))
                &&& final(self).stage == PollStage::Done
            },
    {
        self.card = card;
        match (self.mode, card) {
            (PollMode::Once, None) => {
                self.stage = PollStage::Done;
                PollAction::Finish(Err(Error::NfcReadError))
            },
            _ => {
                self.stage = PollStage::AwaitDeselect;
                PollAction::Deselect
            },
        }
    }

    /// Takes the outcome of deselecting the target and finishes: with the UID and the
    /// card read, unless the read failed, or `poll_once` failed to deselect (read errors).
    pub fn on_deselect(&mut self, deselected: bool) -> (r: PollAction)
        requires
            old(self).stage == PollStage::AwaitDeselect,
        ensures
            final(self).stage == PollStage::Done,
            final(self).mode == old(self).mode,
            final(self).uid == old(self).uid,
            final(self).card == old(self).card,
            match old(self).card {
                Some(c) => if old(self).mode == PollMode::Once && !deselected {
                    r matches PollAction::Finish(Err(Error::NfcReadError))
                } else {
                    r matches PollAction::Finish(Ok((u, d))) && u == old(self).uid && d == c
                },
                None => r matches PollAction::Finish(Err(Error::NfcReadError)),
            },
    {
        self.stage = PollStage::Done;
        match self.card {
            Some(c) => {
                match self.mode {
                    PollMode::Once => {
                        if deselected {
                            PollAction::Finish(Ok((self.uid, c)))
                        } else {
                            PollAction::Finish(Err(Error::NfcReadError))
                        }
                    },
                    PollMode::Incoming => PollAction::Finish(Ok((self.uid, c))),
                }
            },
            None => PollAction::Finish(Err(Error::NfcReadError)),
        }
    }
}

/// Bytes of tag memory that writing and reading a card touch: the pages up to the last
/// page that the third READ command returns (page 15).
pub open spec fn tag_memory_needed() -> int {
    64
}

/// A tag's memory after it carries out WRITE command `cmd`: the page that `cmd` names
/// takes the command's four data bytes.
pub open spec fn tag_write(mem: Seq<u8>, cmd: Seq<u8>) -> Seq<u8> {
    let p = cmd[1] as int;
    mem.subrange(0, 4 * p) + cmd.subrange(2, 6) + mem.subrange(4 * p + 4, mem.len() as int)
}

/// A tag's memory after it carries out the WRITE commands `cmds` in order.
pub open spec fn tag_write_all(mem: Seq<u8>, cmds: Seq<Seq<u8>>) -> Seq<u8>
    decreases cmds.len(),
{
    if cmds.len() == 0 {
        mem
    } else {
        tag_write(tag_write_all(mem, cmds.drop_last()), cmds.last())
    }
}

/// A tag's answer to READ command `cmd`: the four pages from the page it names.
pub open spec fn tag_read(mem: Seq<u8>, cmd: Seq<u8>) -> Seq<u8> {
    let p = cmd[1] as int;
    mem.subrange(4 * p, 4 * p + 16)
}

/// The bytes a readout receives from a tag whose memory is `mem`.
pub open spec fn tag_readout(mem: Seq<u8>) -> Seq<u8> {
    tag_read(mem, read_command(0)) + tag_read(mem, read_command(1)) + tag_read(
        mem,
        read_command(2),
    )
}

/// The WRITE commands of a card as a sequence.
pub open spec fn write_command_seq(card: Seq<u8>) -> Seq<Seq<u8>> {
    Seq::new(PAGES_NEEDED as nat, |i: int| write_command(card, i))
}

/// After the first `k` WRITE commands of a card, the tag's memory keeps its length and
/// holds the card's first `4 * k` bytes from the first user page on.
proof fn lemma_writes_prefix(card: Seq<u8>, mem: Seq<u8>, k: int)
    requires
        card.len() == CARD_SIZE,
        mem.len() >= tag_memory_needed(),
        0 <= k <= PAGES_NEEDED,
    ensures
        tag_write_all(mem, write_command_seq(card).take(k)).len() == mem.len(),
        tag_write_all(mem, write_command_seq(card).take(k)).subrange(16, 16 + 4 * k)
            == card.subrange(0, 4 * k),
    decreases k,
{
    let cmds = write_command_seq(card).take(k);
    if k > 0 {
        lemma_writes_prefix(card, mem, k - 1);
        assert(cmds.drop_last() =~= write_command_seq(card).take(k - 1));
        let before = tag_write_all(mem, cmds.drop_last());
        let cmd = cmds.last();
        assert(padded(card) =~= card);
        assert(cmd == write_command(card, k - 1));
        assert(cmd[1] as int == 4 + (k - 1));
        assert(cmd.subrange(2, 6) =~= card.subrange(4 * (k - 1), 4 * k));
        let after = tag_write_all(mem, cmds);
        assert(after == tag_write(before, cmd));
        assert(after.subrange(16, 16 + 4 * k) =~= card.subrange(0, 4 * k)) by {
            assert forall|j: int| 0 <= j < 4 * k implies #[trigger] after.subrange(16, 16 + 4 * k)[j]
                == card.subrange(0, 4 * k)[j] by {
                if j < 4 * (k - 1) {
                    assert(after[16 + j] == before[16 + j]);
                    assert(before.subrange(16, 16 + 4 * (k - 1))[j] == before[16 + j]);
                } else {
                    assert(after[16 + j] == cmd[2 + j - 4 * (k - 1)]);
                }
            }
        }
    } else {
        assert(cmds.len() == 0);
    }
}

/// Writing a card onto a tag and then reading it back gives the card: the bytes that a
/// readout receives, after the card's WRITE commands have been carried out on the tag's
/// memory, start with the card's bytes, and [`CardReadout::finish`] lays out those
/// bytes. Any memory that reaches past the pages the reads return will do (an NTAG215
/// has 540 bytes).
pub proof fn lemma_write_then_read(card: RawCard, mem: Seq<u8>)
    requires
        mem.len() >= tag_memory_needed(),
    ensures
        tag_readout(tag_write_all(mem, write_command_seq(card@))).subrange(0, CARD_SIZE as int)
            == card@,
{
    lemma_raw_card_len(card);
    lemma_writes_prefix(card@, mem, PAGES_NEEDED as int);
    let cmds = write_command_seq(card@);
    assert(cmds.take(PAGES_NEEDED as int) =~= cmds);
    let m = tag_write_all(mem, cmds);
    let rx = tag_readout(m);
    assert(rx.subrange(0, 44) =~= card@) by {
        assert forall|j: int| 0 <= j < 44 implies #[trigger] rx.subrange(0, 44)[j] == card@[j] by {
            assert(rx[j] == m[16 + j]);
            assert(m.subrange(16, 60)[j] == m[16 + j]);
            assert(card@.subrange(0, 44)[j] == card@[j]);
        }
    }
}

} // verus!
