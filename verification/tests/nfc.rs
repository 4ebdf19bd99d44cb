use nue::auth::Token;
use nue::error::Error;
use nue::nfc::{
    page_write_command, write_commands, CardReadout, PollAction, PollMode, PollSession, PollStage,
    Polled, CARD_SIZE, PAGES_NEEDED, READS_NEEDED, READ_CMD, RX_BUF_SIZE, USER_PAGE_START,
    WRITE_CMD,
};
use nue::raw_card::RawCard;

/// An NTAG215 memory that carries out WRITE and READ commands.
struct Tag {
    mem: Vec<u8>,
}

impl Tag {
    fn new() -> Self {
        Tag { mem: vec![0xEE; 540] }
    }

    fn write(&mut self, cmd: &[u8; 6]) {
        assert_eq!(cmd[0], WRITE_CMD);
        let p = cmd[1] as usize * 4;
        self.mem[p..p + 4].copy_from_slice(&cmd[2..6]);
    }

    fn read(&self, cmd: &[u8; 2]) -> Vec<u8> {
        assert_eq!(cmd[0], READ_CMD);
        let p = cmd[1] as usize * 4;
        self.mem[p..p + 16].to_vec()
    }
}

fn sample_card() -> RawCard {
    let mut nonce = [0u8; 12];
    let mut secret = [0u8; 16];
    let mut tag = [0u8; 16];
    for i in 0..12 {
        nonce[i] = i as u8;
    }
    for i in 0..16 {
        secret[i] = 100 + i as u8;
        tag[i] = 200 + i as u8;
    }
    RawCard::new(Token::from_raw(nonce, secret, tag))
}

#[test]
fn layout_constants() {
    assert_eq!(CARD_SIZE, 44);
    assert_eq!(PAGES_NEEDED, 11);
    assert_eq!(READS_NEEDED, 3);
    assert_eq!(RX_BUF_SIZE, 48);
}

#[test]
fn page_write_command_layout() {
    assert_eq!(page_write_command(4, &[1, 2, 3, 4]), [0xA2, 4, 1, 2, 3, 4]);
    assert_eq!(page_write_command(0x81, &[9, 9, 9, 9]), [0xA2, 0x81, 9, 9, 9, 9]);
}

#[test]
fn write_commands_cover_card_pages() {
    let card = sample_card();
    let cmds = write_commands(&card);
    let bytes = card.as_slice();
    assert_eq!(cmds.len(), 11);
    for (i, cmd) in cmds.iter().enumerate() {
        assert_eq!(cmd[0], 0xA2);
        assert_eq!(cmd[1], USER_PAGE_START + i as u8);
        assert_eq!(&cmd[2..], &bytes[4 * i..4 * i + 4]);
    }
}

#[test]
fn readout_asks_for_three_chunks() {
    let mut r = CardReadout::new();
    assert_eq!(r.next_command(), Some([0x30, 4]));
    assert!(r.accept(&[0u8; 16]));
    assert_eq!(r.next_command(), Some([0x30, 8]));
    assert!(r.finish().is_none());
    assert!(r.accept(&[0u8; 16]));
    assert_eq!(r.next_command(), Some([0x30, 12]));
    assert!(r.accept(&[0u8; 16]));
    assert_eq!(r.next_command(), None);
    assert_eq!(r.finish().unwrap().as_slice(), vec![0u8; 44]);
}

#[test]
fn readout_refuses_short_answer() {
    let mut r = CardReadout::new();
    assert!(!r.accept(&[1u8; 15]));
    assert!(!r.accept(&[1u8; 17]));
    assert_eq!(r.next_command(), Some([0x30, 4]));
}

#[test]
fn write_then_read_gives_card_back() {
    let card = sample_card();
    let mut tag = Tag::new();
    for cmd in write_commands(&card) {
        tag.write(&cmd);
    }
    let mut r = CardReadout::new();
    while let Some(cmd) = r.next_command() {
        let answer = tag.read(&cmd);
        assert!(r.accept(&answer));
    }
    let back = r.finish().unwrap();
    assert!(back == card);
}

#[test]
fn poll_once_success() {
    let mut s = PollSession::new(PollMode::Once);
    assert!(matches!(s.on_target(Polled::Iso14443a([5; 10])), PollAction::ReadCard));
    assert!(matches!(s.on_read(Some(sample_card())), PollAction::Deselect));
    match s.on_deselect(true) {
        PollAction::Finish(Ok((id, c))) => {
            assert_eq!(id.0, [5; 10]);
            assert!(c == sample_card());
        }
        _ => panic!("expected a card"),
    }
    assert_eq!(s.stage, PollStage::Done);
}

#[test]
fn poll_once_errors() {
    let mut s = PollSession::new(PollMode::Once);
    assert!(matches!(s.on_target(Polled::Failed), PollAction::Finish(Err(Error::NfcReadError))));
    let mut s = PollSession::new(PollMode::Once);
    assert!(matches!(
        s.on_target(Polled::Other),
        PollAction::Finish(Err(Error::NfcCardUnrecognized))
    ));
    let mut s = PollSession::new(PollMode::Once);
    s.on_target(Polled::Iso14443a([1; 10]));
    assert!(matches!(s.on_read(None), PollAction::Finish(Err(Error::NfcReadError))));
    let mut s = PollSession::new(PollMode::Once);
    s.on_target(Polled::Iso14443a([1; 10]));
    s.on_read(Some(sample_card()));
    assert!(matches!(s.on_deselect(false), PollAction::Finish(Err(Error::NfcReadError))));
}

#[test]
fn incoming_errors_and_success() {
    let mut s = PollSession::new(PollMode::Incoming);
    assert!(matches!(
        s.on_target(Polled::Failed),
        PollAction::Finish(Err(Error::NfcCardUnrecognized))
    ));
    let mut s = PollSession::new(PollMode::Incoming);
    s.on_target(Polled::Iso14443a([1; 10]));
    assert!(matches!(s.on_read(None), PollAction::Deselect));
    assert!(matches!(s.on_deselect(true), PollAction::Finish(Err(Error::NfcReadError))));
    let mut s = PollSession::new(PollMode::Incoming);
    s.on_target(Polled::Iso14443a([2; 10]));
    s.on_read(Some(sample_card()));
    match s.on_deselect(false) {
        PollAction::Finish(Ok((id, _))) => assert_eq!(id.0, [2; 10]),
        _ => panic!("a failed deselect does not matter to Incoming"),
    }
}
