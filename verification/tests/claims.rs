use author_inherent::{
    CanAuthor, ClaimError, ClaimRecord, Config, EventHandler, Module, Origin, ENGINE_ID,
};

struct Test;

impl Config for Test {
    type AccountId = u64;
    type AuthorId = u64;
    type EventHandler = ();
    type PreliminaryCanAuthor = ();
    type FullCanAuthor = ();
}

fn new_test_ext() -> (Module<Test>, u64) {
    (Module::new((), (), ()), 0)
}

fn roll_to(module: &mut Module<Test>, block_number: &mut u64, n: u64) {
    while *block_number < n {
        *block_number += 1;
        module.on_initialize();
    }
}

/// Admits the authors below a bound.
struct Below(u64);

impl CanAuthor<u64> for Below {
    fn admits(&self, author: &u64) -> bool {
        *author < self.0
    }

    fn can_author(&self, author: &u64) -> bool {
        self.admits(author)
    }
}

/// Keeps what it is told.
struct Heard(Vec<u64>);

impl EventHandler<u64> for Heard {
    fn note_author(&mut self, author: u64) {
        self.0.push(author);
    }
}

struct Guarded;

impl Config for Guarded {
    type AccountId = u64;
    type AuthorId = u64;
    type EventHandler = Heard;
    type PreliminaryCanAuthor = Below;
    type FullCanAuthor = Below;
}

fn guarded(final_bound: u64) -> Module<Guarded> {
    Module::new(Heard(Vec::new()), Below(100), Below(final_bound))
}

fn record_of(author: u64) -> ClaimRecord {
    ClaimRecord { engine_id: *b"auth", payload: author.to_le_bytes().to_vec() }
}

#[test]
fn set_author_works() {
    let (mut module, mut block) = new_test_ext();
    assert_eq!(module.set_author(Origin::none(), 1), Ok(()));
    roll_to(&mut module, &mut block, 1);
    assert_eq!(module.set_author(Origin::none(), 1), Ok(()));
    roll_to(&mut module, &mut block, 2);
}

#[test]
fn must_be_inherent() {
    let (mut module, _) = new_test_ext();
    assert_eq!(module.set_author(Origin::signed(1), 1), Err(ClaimError::NotPermittedOrigin));
    assert_eq!(module.find_author(()), None);
    assert!(module.digest().is_empty());
}

#[test]
fn double_author_fails() {
    let (mut module, _) = new_test_ext();
    assert_eq!(module.set_author(Origin::none(), 1), Ok(()));
    assert_eq!(module.set_author(Origin::none(), 1), Err(ClaimError::AuthorAlreadySet));
    assert_eq!(module.find_author(()), Some(1));
    assert_eq!(module.digest(), &vec![record_of(1)]);
}

#[test]
fn engine_id_is_auth() {
    assert_eq!(ENGINE_ID, [b'a', b'u', b't', b'h']);
    assert_eq!(&ENGINE_ID, b"auth");
}

#[test]
fn no_author_before_the_claim() {
    let mut module = guarded(10);
    assert_eq!(module.find_author(()), None);
    module.on_initialize();
    assert_eq!(module.find_author(()), None);
    assert_eq!(module.set_author(Origin::none(), 3), Ok(()));
    module.on_initialize();
    assert_eq!(module.find_author(()), None);
}

#[test]
fn first_claim_fills_slot_log_and_listener() {
    let mut module = guarded(10);
    module.on_initialize();
    assert_eq!(module.set_author(Origin::none(), 7), Ok(()));
    assert_eq!(module.find_author(()), Some(7));
    assert_eq!(module.digest().len(), 1);
    assert_eq!(module.digest()[0].engine_id, *b"auth");
    assert_eq!(module.digest()[0].payload, vec![7, 0, 0, 0, 0, 0, 0, 0]);
    assert_eq!(module.event_handler().0, vec![7]);
}

#[test]
fn payload_is_the_encoded_author() {
    let mut module = guarded(u64::MAX);
    assert_eq!(module.set_author(Origin::none(), 0x0102030405060708), Ok(()));
    assert_eq!(module.digest()[0].payload, vec![8, 7, 6, 5, 4, 3, 2, 1]);
    assert_eq!(
        module.digest()[0].payload,
        parity_scale_codec::Encode::encode(&0x0102030405060708u64)
    );
}

#[test]
fn second_claim_changes_nothing() {
    let mut module = guarded(10);
    module.on_initialize();
    assert_eq!(module.set_author(Origin::none(), 1), Ok(()));
    assert_eq!(module.set_author(Origin::none(), 2), Err(ClaimError::AuthorAlreadySet));
    assert_eq!(module.set_author(Origin::none(), 50), Err(ClaimError::AuthorAlreadySet));
    assert_eq!(module.find_author(()), Some(1));
    assert_eq!(module.digest(), &vec![record_of(1)]);
    assert_eq!(module.event_handler().0, vec![1]);
}

#[test]
fn other_origins_are_refused_whatever_the_policy() {
    let mut open = guarded(u64::MAX);
    assert_eq!(open.set_author(Origin::signed(1), 1), Err(ClaimError::NotPermittedOrigin));
    assert_eq!(open.set_author(Origin::root(), 1), Err(ClaimError::NotPermittedOrigin));
    assert_eq!(open.set_author(Origin::authorized(), 1), Err(ClaimError::NotPermittedOrigin));
    let mut closed = guarded(0);
    assert_eq!(closed.set_author(Origin::signed(1), 1), Err(ClaimError::NotPermittedOrigin));
    assert_eq!(closed.set_author(Origin::root(), 1), Err(ClaimError::NotPermittedOrigin));
    assert_eq!(open.find_author(()), None);
    assert_eq!(closed.find_author(()), None);
    assert!(open.event_handler().0.is_empty());
}

#[test]
fn origin_is_checked_before_the_slot() {
    let mut module = guarded(10);
    assert_eq!(module.set_author(Origin::none(), 1), Ok(()));
    assert_eq!(module.set_author(Origin::signed(4), 2), Err(ClaimError::NotPermittedOrigin));
}

#[test]
fn rejected_author_leaves_the_slot_empty() {
    let mut module = guarded(10);
    module.on_initialize();
    assert_eq!(module.set_author(Origin::none(), 10), Err(ClaimError::CannotBeAuthor));
    assert_eq!(module.find_author(()), None);
    assert!(module.digest().is_empty());
    assert!(module.event_handler().0.is_empty());
    assert_eq!(module.set_author(Origin::none(), 9), Ok(()));
    assert_eq!(module.find_author(()), Some(9));
}

#[test]
fn slot_is_checked_before_the_policy() {
    let mut module = guarded(10);
    assert_eq!(module.set_author(Origin::none(), 1), Ok(()));
    assert_eq!(module.set_author(Origin::none(), 10), Err(ClaimError::AuthorAlreadySet));
}

#[test]
fn reset_twice_is_reset_once() {
    let mut once = guarded(10);
    let mut twice = guarded(10);
    assert_eq!(once.set_author(Origin::none(), 4), Ok(()));
    assert_eq!(twice.set_author(Origin::none(), 4), Ok(()));
    once.on_initialize();
    twice.on_initialize();
    twice.on_initialize();
    assert_eq!(once.find_author(()), None);
    assert_eq!(twice.find_author(()), None);
    assert_eq!(once.digest(), twice.digest());
    assert_eq!(once.event_handler().0, twice.event_handler().0);
}

#[test]
fn reset_keeps_the_log() {
    let mut module = guarded(10);
    assert_eq!(module.set_author(Origin::none(), 4), Ok(()));
    module.on_initialize();
    assert_eq!(module.digest(), &vec![record_of(4)]);
    assert_eq!(module.set_author(Origin::none(), 5), Ok(()));
    assert_eq!(module.digest(), &vec![record_of(4), record_of(5)]);
    assert_eq!(module.event_handler().0, vec![4, 5]);
}

#[test]
fn two_rounds_with_the_same_author() {
    let (mut module, mut block) = new_test_ext();
    roll_to(&mut module, &mut block, 1);
    assert_eq!(module.set_author(Origin::none(), 1), Ok(()));
    assert_eq!(module.find_author(()), Some(1));
    roll_to(&mut module, &mut block, 2);
    assert_eq!(module.set_author(Origin::none(), 1), Ok(()));
    assert_eq!(module.find_author(()), Some(1));
    assert_eq!(module.set_author(Origin::none(), 2), Err(ClaimError::AuthorAlreadySet));
    assert_eq!(module.find_author(()), Some(1));
}

#[test]
fn signed_origin_is_rejected() {
    let (mut module, mut block) = new_test_ext();
    roll_to(&mut module, &mut block, 1);
    assert_eq!(module.set_author(Origin::signed(1), 1), Err(ClaimError::NotPermittedOrigin));
    assert_eq!(module.find_author(()), None);
}

#[test]
fn decided_claim_follows_the_decision() {
    let mut module = guarded(0);
    assert_eq!(module.claim(true, 3, false), Err(ClaimError::CannotBeAuthor));
    assert_eq!(module.claim(false, 3, true), Err(ClaimError::NotPermittedOrigin));
    assert_eq!(module.claim(false, 3, false), Err(ClaimError::NotPermittedOrigin));
    assert_eq!(module.find_author(()), None);
    assert_eq!(module.claim(true, 3, true), Ok(()));
    assert_eq!(module.find_author(()), Some(3));
    assert_eq!(module.claim(true, 4, true), Err(ClaimError::AuthorAlreadySet));
    assert_eq!(module.claim(true, 4, false), Err(ClaimError::AuthorAlreadySet));
    assert_eq!(module.digest(), &vec![record_of(3)]);
    assert_eq!(module.event_handler().0, vec![3]);
}

#[test]
fn find_author_ignores_the_digests() {
    let mut module = guarded(10);
    assert_eq!(module.find_author(vec![(*b"auth", vec![9u8; 8])]), None);
    assert_eq!(module.set_author(Origin::none(), 2), Ok(()));
    assert_eq!(module.find_author(vec![(*b"auth", vec![9u8; 8])]), Some(2));
    assert_eq!(module.find_author(Vec::<([u8; 4], Vec<u8>)>::new()), Some(2));
}

#[test]
fn restored_round_keeps_its_author() {
    let mut claimed: Module<Guarded> =
        Module::restore(Some(6), Heard(Vec::new()), Below(100), Below(100));
    assert_eq!(claimed.find_author(()), Some(6));
    assert!(claimed.digest().is_empty());
    assert_eq!(claimed.set_author(Origin::none(), 7), Err(ClaimError::AuthorAlreadySet));
    let mut empty: Module<Guarded> =
        Module::restore(None, Heard(Vec::new()), Below(100), Below(100));
    assert_eq!(empty.set_author(Origin::none(), 7), Ok(()));
    assert_eq!(empty.find_author(()), Some(7));
}

#[test]
fn unit_policy_admits_anyone() {
    assert!(CanAuthor::<u64>::can_author(&(), &0));
    assert!(CanAuthor::<u64>::can_author(&(), &u64::MAX));
    let mut nobody = ();
    EventHandler::<u64>::note_author(&mut nobody, 3);
}

#[test]
fn listener_hears_each_accepted_claim_once() {
    let mut module = guarded(10);
    module.on_initialize();
    assert_eq!(module.set_author(Origin::none(), 1), Ok(()));
    module.on_initialize();
    assert_eq!(module.set_author(Origin::none(), 1), Ok(()));
    assert_eq!(module.set_author(Origin::none(), 2), Err(ClaimError::AuthorAlreadySet));
    assert_eq!(module.event_handler().0, vec![1, 1]);
}

#[test]
fn policy_decides_alike_on_equal_candidates() {
    let policy = Below(10);
    assert_eq!(policy.can_author(&9), policy.can_author(&9));
    assert_eq!(policy.can_author(&10), policy.can_author(&10));
    assert!(policy.can_author(&9));
    assert!(!policy.can_author(&10));
}
