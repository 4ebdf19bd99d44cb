use crate::raw_card::CardID;
use vstd::prelude::*;
use vstd::string::StringExecFns;

verus! {

/// A member's subscription tier.
#[derive(Debug, Clone, Copy, PartialEq, Eq, Structural)]
pub enum SubTier {
    Basic,
    VIP,
}

/// The number that stands for a tier in storage (its position in the enum).
pub open spec fn tier_code(t: SubTier) -> u8 {
    match t {
        SubTier::Basic => 0,
        SubTier::VIP => 1,
    }
}

/// The tier that a stored number stands for: 0 is `Basic`, anything else `VIP`.
pub open spec fn tier_of_code(v: u8) -> SubTier {
    if v == 0 {
        SubTier::Basic
    } else {
        SubTier::VIP
    }
}

impl Default for SubTier {
    fn default() -> (r: Self)
        ensures
            r == SubTier::Basic,
    {
        SubTier::Basic
    }
}

impl From<u8> for SubTier {
    fn from(value: u8) -> (r: Self) {
        match value {
            0 => SubTier::Basic,
            _ => SubTier::VIP,
        }
    }
}

impl vstd::std_specs::convert::FromSpecImpl<u8> for SubTier {
    open spec fn obeys_from_spec() -> bool {
        true
    }

    open spec fn from_spec(value: u8) -> Self {
        tier_of_code(value)
    }
}

/// Whether a member's subscription is active.
#[derive(Debug, Clone, Copy, PartialEq, Eq, Structural)]
pub enum SubStatus {
    Active,
    Inactive,
}

/// The number that stands for a status in storage (its position in the enum).
pub open spec fn status_code(s: SubStatus) -> u8 {
    match s {
        SubStatus::Active => 0,
        SubStatus::Inactive => 1,
    }
}

/// The status that a stored number stands for: 0 is `Active`, anything else `Inactive`.
pub open spec fn status_of_code(v: u8) -> SubStatus {
    if v == 0 {
        SubStatus::Active
    } else {
        SubStatus::Inactive
    }
}

impl Default for SubStatus {
    fn default() -> (r: Self)
        ensures
            r == SubStatus::Inactive,
    {
        SubStatus::Inactive
    }
}

impl From<u8> for SubStatus {
    fn from(value: u8) -> (r: Self) {
        match value {
            0 => SubStatus::Active,
            _ => SubStatus::Inactive,
        }
    }
}

impl vstd::std_specs::convert::FromSpecImpl<u8> for SubStatus {
    open spec fn obeys_from_spec() -> bool {
        true
    }

    open spec fn from_spec(value: u8) -> Self {
        status_of_code(value)
    }
}

/// The first second that a UTC date-time can hold: January 1, 262144 BCE, 00:00:00.
pub const MIN_UTC_TIMESTAMP: i64 = -8334601228800;

/// The last second that a UTC date-time can hold: December 31, 262142 CE, 23:59:59.
pub const MAX_UTC_TIMESTAMP: i64 = 8210266876799;

/// A count of seconds since the UNIX epoch that a UTC date-time can hold.
pub open spec fn utc_representable(secs: int) -> bool {
    MIN_UTC_TIMESTAMP <= secs <= MAX_UTC_TIMESTAMP
}

/// Checks that `secs` seconds after the UNIX epoch is a UTC date-time.
///
/// Trusted: `chrono::DateTime::from_timestamp(secs, 0)`, whose source (chrono 0.4.45)
/// gives a date-time exactly when the day falls between `NaiveDate::MIN` and
/// `NaiveDate::MAX`, that is when `secs` lies in the range stated here; its
/// `timestamp()` then gives `secs` back, as the documentation's round trip shows.
#[verifier::external_body]
fn utc_timestamp(secs: i64) -> (r: Option<i64>)
    ensures
        r == (if utc_representable(secs as int) {
            Some(secs)
        } else {
            None
        }),
{
    chrono::DateTime::from_timestamp(secs, 0).map(|d| d.timestamp())
}

/// A UTC date-time to the second, held as the seconds since the UNIX epoch.
#[derive(Debug, Clone, Copy, PartialEq, Eq)]
pub struct Timestamp {
    secs: i64,
}

impl View for Timestamp {
    type V = i64;

    closed spec fn view(&self) -> i64 {
        self.secs
    }
}

impl Timestamp {
    #[verifier::type_invariant]
    spec fn representable(self) -> bool {
        utc_representable(self.secs as int)
    }

    /// The date-time `secs` seconds after the UNIX epoch, when UTC can hold it.
    pub fn from_secs(secs: i64) -> (r: Option<Timestamp>)
        ensures
            r is Some <==> utc_representable(secs as int),
            r matches Some(t) ==> t@ == secs,
    {
        match utc_timestamp(secs) {
            Some(s) => Some(Timestamp { secs: s }),
            None => None,
        }
    }

    /// The seconds since the UNIX epoch.
    pub fn secs(&self) -> (r: i64)
        ensures
            r == self@,
            utc_representable(r as int),
    {
        proof {
            use_type_invariant(self);
        }
        self.secs
    }
}

/// The seconds of an optional timestamp.
pub open spec fn opt_secs(t: Option<Timestamp>) -> Option<i64> {
    match t {
        Some(t) => Some(t@),
        None => None,
    }
}

/// The seconds of an optional borrowed timestamp.
pub open spec fn opt_ref_secs(t: Option<&Timestamp>) -> Option<i64> {
    match t {
        Some(t) => Some((*t)@),
        None => None,
    }
}

/// The seconds of an optional timestamp, in the exec world.
fn opt_timestamp_secs(t: Option<Timestamp>) -> (r: Option<i64>)
    ensures
        r == opt_secs(t),
        r matches Some(s) ==> utc_representable(s as int),
{
    match t {
        Some(t) => Some(t.secs()),
        None => None,
    }
}

/// The timestamp of optional seconds, which UTC can hold when present.
fn opt_timestamp(secs: Option<i64>) -> (r: Option<Timestamp>)
    requires
        secs matches Some(s) ==> utc_representable(s as int),
    ensures
        opt_secs(r) == secs,
{
    match secs {
        Some(s) => Some(Timestamp::from_secs(s).unwrap()),
        None => None,
    }
}

/// What an [`NfcCard`] holds, as mathematical values.
pub struct NfcCardView {
    pub uid: Seq<u8>,
    pub username: Seq<char>,
    pub membership_id: usize,
    pub subscription_status: SubStatus,
    pub subscription_tier: SubTier,
    pub subscription_start: Option<i64>,
    pub subscription_end: Option<i64>,
    pub last_used: Option<i64>,
}

/// The result of reading an NFC card from storage: unlike a [`crate::raw_card::RawCard`],
/// it holds the member's details fetched from an external resource.
#[derive(Debug)]
pub struct NfcCard {
    uid: CardID,
    username: String,
    membership_id: usize,
    subscription_status: SubStatus,
    subscription_tier: SubTier,
    subscription_start: Option<Timestamp>,
    subscription_end: Option<Timestamp>,
    last_used: Option<Timestamp>,
}

impl View for NfcCard {
    type V = NfcCardView;

    closed spec fn view(&self) -> NfcCardView {
        NfcCardView {
            uid: self.uid.0@,
            username: self.username@,
            membership_id: self.membership_id,
            subscription_status: self.subscription_status,
            subscription_tier: self.subscription_tier,
            subscription_start: opt_secs(self.subscription_start),
            subscription_end: opt_secs(self.subscription_end),
            last_used: opt_secs(self.last_used),
        }
    }
}

impl NfcCard {
    pub fn new(
        uid: CardID,
        username: &str,
        membership_id: usize,
        subscription_tier: SubTier,
        subscription_status: SubStatus,
        subscription_start: Timestamp,
        subscription_end: Timestamp,
        last_used: Timestamp,
    ) -> (r: Self)
        ensures
            r@ == (NfcCardView {
                uid: uid.0@,
                username: username@,
                membership_id,
                subscription_status,
                subscription_tier,
                subscription_start: Some(subscription_start@),
                subscription_end: Some(subscription_end@),
                last_used: Some(last_used@),
            }),
    {
        NfcCard {
            membership_id,
            uid,
            subscription_tier,
            subscription_status,
            username: String::from_str(username),
            subscription_start: Some(subscription_start),
            subscription_end: Some(subscription_end),
            last_used: Some(last_used),
        }
    }

    pub fn membership_id(&self) -> (r: usize)
        ensures
            r == self@.membership_id,
    {
        self.membership_id
    }

    pub fn username(&self) -> (r: &str)
        ensures
            r@ == self@.username,
    {
        self.username.as_str()
    }

    pub fn subscription_start(&self) -> (r: Option<&Timestamp>)
        ensures
            opt_ref_secs(r) == self@.subscription_start,
    {
        self.subscription_start.as_ref()
    }

    pub fn subscription_end(&self) -> (r: Option<&Timestamp>)
        ensures
            opt_ref_secs(r) == self@.subscription_end,
    {
        self.subscription_end.as_ref()
    }

    pub fn last_used(&self) -> (r: Option<&Timestamp>)
        ensures
            opt_ref_secs(r) == self@.last_used,
    {
        self.last_used.as_ref()
    }

    pub fn uid(&self) -> (r: CardID)
        ensures
            r.0@ == self@.uid,
    {
        self.uid
    }

    pub fn subscription_tier(&self) -> (r: SubTier)
        ensures
            r == self@.subscription_tier,
    {
        self.subscription_tier
    }

    pub fn subscription_status(&self) -> (r: SubStatus)
        ensures
            r == self@.subscription_status,
    {
        self.subscription_status
    }
}

impl Clone for NfcCard {
    fn clone(&self) -> (r: Self)
        ensures
            r@ == self@,
    {
        NfcCard {
            uid: self.uid,
            username: self.username.clone(),
            membership_id: self.membership_id,
            subscription_status: self.subscription_status,
            subscription_tier: self.subscription_tier,
            subscription_start: self.subscription_start,
            subscription_end: self.subscription_end,
            last_used: self.last_used,
        }
    }
}

/// What an [`NfcCardBuilder`] has been given so far.
pub struct NfcCardBuilderView {
    pub username: Option<Seq<char>>,
    pub membership_id: Option<usize>,
    pub subscription_start: Option<i64>,
    pub subscription_end: Option<i64>,
    pub last_used: Option<i64>,
    pub uid: Option<Seq<u8>>,
    pub subscription_tier: Option<SubTier>,
    pub subscription_status: Option<SubStatus>,
}

/// Builds an [`NfcCard`] field by field; fields left unset take their defaults.
pub struct NfcCardBuilder {
    username: Option<String>,
    membership_id: Option<usize>,
    subscription_start: Option<Timestamp>,
    subscription_end: Option<Timestamp>,
    last_used: Option<Timestamp>,
    uid: Option<CardID>,
    subscription_tier: Option<SubTier>,
    subscription_status: Option<SubStatus>,
}

/// The text of an optional string.
pub open spec fn opt_text(s: Option<String>) -> Option<Seq<char>> {
    match s {
        Some(s) => Some(s@),
        None => None,
    }
}

impl View for NfcCardBuilder {
    type V = NfcCardBuilderView;

    closed spec fn view(&self) -> NfcCardBuilderView {
        NfcCardBuilderView {
            username: opt_text(self.username),
            membership_id: self.membership_id,
            subscription_start: opt_secs(self.subscription_start),
            subscription_end: opt_secs(self.subscription_end),
            last_used: opt_secs(self.last_used),
            uid: opt_uid(self.uid),
            subscription_tier: self.subscription_tier,
            subscription_status: self.subscription_status,
        }
    }
}

/// The bytes of an optional UID.
pub open spec fn opt_uid(u: Option<CardID>) -> Option<Seq<u8>> {
    match u {
        Some(u) => Some(u.0@),
        None => None,
    }
}

/// The card that a builder in state `b` finishes into: each unset field takes its
/// default (empty name, membership 0, zero UID, `Basic` tier, `Inactive` status,
/// no dates).
pub open spec fn finished(b: NfcCardBuilderView) -> NfcCardView {
    NfcCardView {
        uid: match b.uid {
            Some(u) => u,
            None => zero_uid(),
        },
        username: match b.username {
            Some(u) => u,
            None => Seq::empty(),
        },
        membership_id: match b.membership_id {
            Some(m) => m,
            None => 0,
        },
        subscription_status: match b.subscription_status {
            Some(s) => s,
            None => SubStatus::Inactive,
        },
        subscription_tier: match b.subscription_tier {
            Some(t) => t,
            None => SubTier::Basic,
        },
        subscription_start: b.subscription_start,
        subscription_end: b.subscription_end,
        last_used: b.last_used,
    }
}

/// What a builder finishes into, field by field: each field that was set keeps the
/// value it was given, and no other field flows into it; each unset field takes its own
/// fixed default (no dates, `Inactive`, `Basic`, membership 0, empty name, zero UID),
/// whatever the other fields hold.
pub proof fn lemma_finished_fields(b: NfcCardBuilderView)
    ensures
        finished(b).subscription_start == b.subscription_start,
        finished(b).subscription_end == b.subscription_end,
        finished(b).last_used == b.last_used,
        b.subscription_status matches Some(s) ==> finished(b).subscription_status == s,
        b.subscription_status is None ==> finished(b).subscription_status == SubStatus::Inactive,
        b.subscription_tier matches Some(t) ==> finished(b).subscription_tier == t,
        b.subscription_tier is None ==> finished(b).subscription_tier == SubTier::Basic,
        b.membership_id matches Some(m) ==> finished(b).membership_id == m,
        b.membership_id is None ==> finished(b).membership_id == 0,
        b.username matches Some(u) ==> finished(b).username == u,
        b.username is None ==> finished(b).username == Seq::<char>::empty(),
        b.uid matches Some(u) ==> finished(b).uid == u,
        b.uid is None ==> finished(b).uid == Seq::new(10, |i: int| 0u8),
{
}

/// The bytes of the all-zero UID.
pub open spec fn zero_uid() -> Seq<u8> {
    Seq::new(10, |i: int| 0u8)
}

impl NfcCardBuilder {
    pub fn new() -> (r: Self)
        ensures
            r@ == (NfcCardBuilderView {
                username: None,
                membership_id: None,
                subscription_start: None,
                subscription_end: None,
                last_used: None,
                uid: None,
                subscription_tier: None,
                subscription_status: None,
            }),
    {
        NfcCardBuilder {
            username: None,
            membership_id: None,
            subscription_start: None,
            subscription_end: None,
            last_used: None,
            uid: None,
            subscription_tier: None,
            subscription_status: None,
        }
    }

    pub fn username(self, username: &str) -> (r: Self)
        ensures
            r@ == (NfcCardBuilderView { username: Some(username@), ..self@ }),
    {
        let mut b = self;
        b.username = Some(String::from_str(username));
        b
    }

    pub fn membership_id(self, membership_id: usize) -> (r: Self)
        ensures
            r@ == (NfcCardBuilderView { membership_id: Some(membership_id), ..self@ }),
    {
        let mut b = self;
        b.membership_id = Some(membership_id);
        b
    }

    /// Sets the subscription start, `start` seconds after the UNIX epoch, which must be
    /// a UTC date-time.
    pub fn start(self, start: isize) -> (r: Self)
        requires
            utc_representable(start as int),
        ensures
            r@ == (NfcCardBuilderView { subscription_start: Some(start as i64), ..self@ }),
    {
        let mut b = self;
        b.subscription_start = Some(Timestamp::from_secs(start as i64).unwrap());
        b
    }

    /// Sets the subscription end, `end` seconds after the UNIX epoch, which must be
    /// a UTC date-time.
    pub fn end(self, end: isize) -> (r: Self)
        requires
            utc_representable(end as int),
        ensures
            r@ == (NfcCardBuilderView { subscription_end: Some(end as i64), ..self@ }),
    {
        let mut b = self;
        b.subscription_end = Some(Timestamp::from_secs(end as i64).unwrap());
        b
    }

    /// Sets the last use, `last_used` seconds after the UNIX epoch, which must be
    /// a UTC date-time.
    pub fn last_used(self, last_used: isize) -> (r: Self)
        requires
            utc_representable(last_used as int),
        ensures
            r@ == (NfcCardBuilderView { last_used: Some(last_used as i64), ..self@ }),
    {
        let mut b = self;
        b.last_used = Some(Timestamp::from_secs(last_used as i64).unwrap());
        b
    }

    pub fn uid(self, uid: CardID) -> (r: Self)
        ensures
            r@ == (NfcCardBuilderView { uid: Some(uid.0@), ..self@ }),
    {
        let mut b = self;
        b.uid = Some(uid);
        b
    }

    pub fn subscription_tier(self, tier: SubTier) -> (r: Self)
        ensures
            r@ == (NfcCardBuilderView { subscription_tier: Some(tier), ..self@ }),
    {
        let mut b = self;
        b.subscription_tier = Some(tier);
        b
    }

    pub fn subscription_status(self, status: SubStatus) -> (r: Self)
        ensures
            r@ == (NfcCardBuilderView { subscription_status: Some(status), ..self@ }),
    {
        let mut b = self;
        b.subscription_status = Some(status);
        b
    }

    /// The card, with each unset field at its default.
    pub fn finish(self) -> (r: NfcCard)
        ensures
            r@ == finished(self@),
            r@.subscription_start == self@.subscription_start,
            r@.subscription_end == self@.subscription_end,
            r@.last_used == self@.last_used,
            self@.subscription_status matches Some(s) ==> r@.subscription_status == s,
            self@.subscription_status is None ==> r@.subscription_status == SubStatus::Inactive,
            self@.subscription_tier matches Some(t) ==> r@.subscription_tier == t,
            self@.subscription_tier is None ==> r@.subscription_tier == SubTier::Basic,
            self@.membership_id matches Some(m) ==> r@.membership_id == m,
            self@.membership_id is None ==> r@.membership_id == 0,
            self@.username matches Some(u) ==> r@.username == u,
            self@.username is None ==> r@.username == Seq::<char>::empty(),
            self@.uid matches Some(u) ==> r@.uid == u,
            self@.uid is None ==> r@.uid == Seq::new(10, |i: int| 0u8),
    {
        let username = match self.username {
            Some(u) => u,
            None => String::new(),
        };
        let membership_id = match self.membership_id {
            Some(m) => m,
            None => 0,
        };
        let uid = match self.uid {
            Some(u) => u,
            None => CardID::new_zeroed(),
        };
        let subscription_tier = match self.subscription_tier {
            Some(t) => t,
            None => SubTier::default(),
        };
        let subscription_status = match self.subscription_status {
            Some(s) => s,
            None => SubStatus::default(),
        };
        let r = NfcCard {
            username,
            membership_id,
            subscription_start: self.subscription_start,
            subscription_end: self.subscription_end,
            last_used: self.last_used,
            uid,
            subscription_tier,
            subscription_status,
        };
        r
    }
}

/// The column values of a card in storage: the UID, the username, the membership
/// number, the status and tier numbers, and the three dates as seconds since the
/// UNIX epoch (absent when the column holds no number).
pub struct CardRow {
    pub uid: [u8; 10],
    pub username: String,
    pub membership_id: i64,
    pub subscription_status: u8,
    pub subscription_tier: u8,
    pub subscription_start: Option<i64>,
    pub subscription_end: Option<i64>,
    pub last_used: Option<i64>,
}

/// Each date of the row, where present, is a UTC date-time.
pub open spec fn row_dates_representable(row: CardRow) -> bool {
    &&& (row.subscription_start matches Some(s) ==> utc_representable(s as int))
    &&& (row.subscription_end matches Some(s) ==> utc_representable(s as int))
    &&& (row.last_used matches Some(s) ==> utc_representable(s as int))
}

/// Each date of the card, where present, is a UTC date-time.
pub open spec fn card_dates_representable(c: NfcCardView) -> bool {
    &&& (c.subscription_start matches Some(s) ==> utc_representable(s as int))
    &&& (c.subscription_end matches Some(s) ==> utc_representable(s as int))
    &&& (c.last_used matches Some(s) ==> utc_representable(s as int))
}

/// The card that a storage row describes.
pub open spec fn card_of_row(row: CardRow) -> NfcCardView {
    NfcCardView {
        uid: row.uid@,
        username: row.username@,
        membership_id: row.membership_id as usize,
        subscription_status: status_of_code(row.subscription_status),
        subscription_tier: tier_of_code(row.subscription_tier),
        subscription_start: row.subscription_start,
        subscription_end: row.subscription_end,
        last_used: row.last_used,
    }
}

/// The storage row of card `c` kept under `membership_id`.
pub open spec fn row_matches(row: CardRow, c: NfcCardView, membership_id: usize) -> bool {
    &&& row.uid@ == c.uid
    &&& row.username@ == c.username
    &&& row.membership_id == membership_id as i64
    &&& row.subscription_status == status_code(c.subscription_status)
    &&& row.subscription_tier == tier_code(c.subscription_tier)
    &&& row.subscription_start == c.subscription_start
    &&& row.subscription_end == c.subscription_end
    &&& row.last_used == c.last_used
}

impl NfcCard {
    /// The card that a storage row describes. Each date present in the row must be a
    /// UTC date-time; the membership number is taken as a `usize` bit for bit.
    pub fn from_row(row: CardRow) -> (r: NfcCard)
        requires
            row_dates_representable(row),
        ensures
            r@ == card_of_row(row),
            r@.uid == row.uid@,
            r@.username == row.username@,
            r@.membership_id == row.membership_id as usize,
            (r@.subscription_status == SubStatus::Active) == (row.subscription_status == 0),
            (r@.subscription_tier == SubTier::Basic) == (row.subscription_tier == 0),
            r@.subscription_start == row.subscription_start,
            r@.subscription_end == row.subscription_end,
            r@.last_used == row.last_used,
    {
        let uid = CardID::from(row.uid);
        NfcCard {
            username: row.username,
            uid,
            membership_id: row.membership_id as usize,
            subscription_tier: SubTier::from(row.subscription_tier),
            subscription_status: SubStatus::from(row.subscription_status),
            subscription_start: opt_timestamp(row.subscription_start),
            subscription_end: opt_timestamp(row.subscription_end),
            last_used: opt_timestamp(row.last_used),
        }
    }

    /// The storage row of this card, kept under `membership_id`.
    pub fn to_row(&self, membership_id: usize) -> (r: CardRow)
        ensures
            row_matches(r, self@, membership_id),
            row_dates_representable(r),
            r.uid@ == self@.uid,
            r.username@ == self@.username,
            r.membership_id == membership_id as i64,
            (r.subscription_status == 0) == (self@.subscription_status == SubStatus::Active),
            r.subscription_status <= 1,
            (r.subscription_tier == 0) == (self@.subscription_tier == SubTier::Basic),
            r.subscription_tier <= 1,
            r.subscription_start == self@.subscription_start,
            r.subscription_end == self@.subscription_end,
            r.last_used == self@.last_used,
    {
        let status: u8 = match self.subscription_status {
            SubStatus::Active => 0,
            SubStatus::Inactive => 1,
        };
        let tier: u8 = match self.subscription_tier {
            SubTier::Basic => 0,
            SubTier::VIP => 1,
        };
        CardRow {
            uid: self.uid.0,
            username: self.username.clone(),
            membership_id: membership_id as i64,
            subscription_status: status,
            subscription_tier: tier,
            subscription_start: opt_timestamp_secs(self.subscription_start),
            subscription_end: opt_timestamp_secs(self.subscription_end),
            last_used: opt_timestamp_secs(self.last_used),
        }
    }
}

/// Storing a card under any membership number `m` and reading the row back gives the
/// same card, now with membership number `m`.
pub proof fn lemma_row_roundtrip(c: NfcCardView, row: CardRow, m: usize)
    requires
        row_matches(row, c, m),
    ensures
        card_of_row(row) == (NfcCardView { membership_id: m, ..c }),
{
    assert((m as i64) as usize == m) by (bit_vector);
    match c.subscription_status {
        SubStatus::Active => {},
        SubStatus::Inactive => {},
    }
    match c.subscription_tier {
        SubTier::Basic => {},
        SubTier::VIP => {},
    }
}

/// Each column of a card's storage row is the card's own field of the same name, and
/// each column of a row lands in the card's field of the same name: no field is stored
/// in, or read from, another field's column.
pub proof fn lemma_row_columns(c: NfcCardView, row: CardRow, m: usize)
    ensures
        row_matches(row, c, m) ==> {
            &&& row.uid@ == c.uid
            &&& row.username@ == c.username
            &&& row.membership_id == m as i64
            &&& (row.subscription_status == 0) == (c.subscription_status == SubStatus::Active)
            &&& (row.subscription_tier == 0) == (c.subscription_tier == SubTier::Basic)
            &&& row.subscription_start == c.subscription_start
            &&& row.subscription_end == c.subscription_end
            &&& row.last_used == c.last_used
        },
        card_of_row(row).uid == row.uid@,
        card_of_row(row).username == row.username@,
        card_of_row(row).membership_id == row.membership_id as usize,
        (card_of_row(row).subscription_status == SubStatus::Active) == (row.subscription_status
            == 0),
        (card_of_row(row).subscription_tier == SubTier::Basic) == (row.subscription_tier == 0),
        card_of_row(row).subscription_start == row.subscription_start,
        card_of_row(row).subscription_end == row.subscription_end,
        card_of_row(row).last_used == row.last_used,
{
    match c.subscription_status {
        SubStatus::Active => {},
        SubStatus::Inactive => {},
    }
    match c.subscription_tier {
        SubTier::Basic => {},
        SubTier::VIP => {},
    }
}

/// The number stored for a tier or a status converts back (through `From<u8>`) to
/// the same tier or status.
pub proof fn lemma_codes_roundtrip(t: SubTier, s: SubStatus)
    ensures
        tier_of_code(tier_code(t)) == t,
        status_of_code(status_code(s)) == s,
{
}

} // verus!
