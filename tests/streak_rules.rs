use on_chain_claim::contract::OnChainClaim;
use on_chain_claim::model::Call;
use on_chain_claim::repair::{is_repairable, same_bytes, Payment, MAX_REPAIR_GAP, REPAIR_STREAK_PRICE};
use on_chain_claim::{emit, AddressInfo, ClaimError, Event, EventsModule};

const OWNER: u64 = 10;
const USER: u64 = 20;
const SHARD: u32 = 2;
const OTHER_SHARD: u32 = 0;

fn deploy() -> OnChainClaim {
    OnChainClaim::new(OWNER, SHARD, b"TUD-fff707".to_vec(), 0).unwrap()
}

fn at(caller: u64, epoch: u64) -> Call {
    Call::new(caller, SHARD, epoch)
}

fn price() -> Payment {
    Payment::new(b"TUD-fff707".to_vec(), 0, REPAIR_STREAK_PRICE)
}

fn info(current_streak: u64, last_epoch_claimed: u64, total_epochs_claimed: u64, best_streak: u64) -> AddressInfo {
    AddressInfo::new(current_streak, last_epoch_claimed, total_epochs_claimed, best_streak)
}

#[test]
fn unclaimed_account_reads_all_zero() {
    let sc = deploy();
    assert_eq!(sc.get_address_info(USER), info(0, 0, 0, 0));
    assert_eq!(AddressInfo::default(), info(0, 0, 0, 0));
    assert!(!sc.can_be_repaired(USER, 5));
}

#[test]
fn first_claim_starts_streak_of_one() {
    let mut sc = deploy();
    let r = sc.claim(&at(USER, 7));
    assert_eq!(r, Ok(Event::NewClaim { address: USER, info: info(1, 7, 1, 1) }));
}

#[test]
fn first_claim_at_epoch_zero_succeeds() {
    let mut sc = deploy();
    assert!(sc.claim(&at(USER, 0)).is_ok());
    assert_eq!(sc.get_address_info(USER), info(1, 0, 1, 1));
    assert_eq!(sc.claim(&at(USER, 0)), Err(ClaimError::AlreadyClaimed));
}

#[test]
fn double_claim_leaves_first_state() {
    let mut sc = deploy();
    sc.claim(&at(USER, 5)).unwrap();
    let after_first = sc.get_address_info(USER);
    assert_eq!(sc.claim(&at(USER, 5)), Err(ClaimError::AlreadyClaimed));
    assert_eq!(sc.get_address_info(USER), after_first);
}

#[test]
fn consecutive_epochs_extend_streak() {
    let mut sc = deploy();
    sc.claim(&at(USER, 10)).unwrap();
    sc.claim(&at(USER, 11)).unwrap();
    assert_eq!(sc.get_address_info(USER), info(2, 11, 2, 2));
}

#[test]
fn gap_restarts_streak() {
    let mut sc = deploy();
    sc.claim(&at(USER, 10)).unwrap();
    sc.claim(&at(USER, 12)).unwrap();
    assert_eq!(sc.get_address_info(USER), info(1, 12, 2, 1));
}

#[test]
fn best_streak_survives_a_break() {
    let mut sc = deploy();
    for e in 1..=4u64 {
        sc.claim(&at(USER, e)).unwrap();
    }
    sc.claim(&at(USER, 9)).unwrap();
    sc.claim(&at(USER, 10)).unwrap();
    assert_eq!(sc.get_address_info(USER), info(2, 10, 6, 4));
}

#[test]
fn total_counts_successes_only() {
    let mut sc = deploy();
    sc.claim(&at(USER, 1)).unwrap();
    assert!(sc.claim(&at(USER, 1)).is_err());
    assert!(sc.claim(&Call::new(USER, OTHER_SHARD, 2)).is_err());
    assert_eq!(sc.get_address_info(USER).total_epochs_claimed, 1);
    sc.claim_and_repair(&at(USER, 3), &price(), true).unwrap();
    assert_eq!(sc.get_address_info(USER).total_epochs_claimed, 2);
}

#[test]
fn repair_keeps_streak_across_gap() {
    let mut sc = deploy();
    sc.claim(&at(USER, 1)).unwrap();
    sc.claim(&at(USER, 2)).unwrap();
    assert!(sc.can_be_repaired(USER, 5));
    let r = sc.claim_and_repair(&at(USER, 5), &price(), true);
    assert_eq!(r, Ok(Event::NewClaimAndRepair { address: USER, info: info(3, 5, 3, 3) }));
}

#[test]
fn repair_with_wrong_amount_changes_nothing() {
    let mut sc = deploy();
    sc.claim(&at(USER, 1)).unwrap();
    let before = sc.get_address_info(USER);
    let pay = Payment::new(b"TUD-fff707".to_vec(), 0, 3);
    assert_eq!(sc.claim_and_repair(&at(USER, 3), &pay, true), Err(ClaimError::BadPayment));
    assert_eq!(sc.get_address_info(USER), before);
}

#[test]
fn repair_with_wrong_token_or_nonce_is_bad_payment() {
    let mut sc = deploy();
    sc.claim(&at(USER, 1)).unwrap();
    let other_token = Payment::new(b"TUD-fff708".to_vec(), 0, REPAIR_STREAK_PRICE);
    let other_nonce = Payment::new(b"TUD-fff707".to_vec(), 1, REPAIR_STREAK_PRICE);
    assert_eq!(sc.claim_and_repair(&at(USER, 3), &other_token, true), Err(ClaimError::BadPayment));
    assert_eq!(sc.claim_and_repair(&at(USER, 3), &other_nonce, true), Err(ClaimError::BadPayment));
}

#[test]
fn repair_outside_window_is_not_repairable() {
    let mut sc = deploy();
    assert_eq!(sc.claim_and_repair(&at(USER, 3), &price(), true), Err(ClaimError::NotRepairable));
    sc.claim(&at(USER, 1)).unwrap();
    assert_eq!(sc.claim_and_repair(&at(USER, 2), &price(), true), Err(ClaimError::NotRepairable));
    assert_eq!(sc.claim_and_repair(&at(USER, 1), &price(), true), Err(ClaimError::NotRepairable));
    let too_late = 1 + MAX_REPAIR_GAP + 2;
    assert!(!sc.can_be_repaired(USER, too_late));
    assert_eq!(sc.claim_and_repair(&at(USER, too_late), &price(), true), Err(ClaimError::NotRepairable));
    assert!(sc.can_be_repaired(USER, too_late - 1));
    assert_eq!(sc.get_address_info(USER), info(1, 1, 1, 1));
}

#[test]
fn repairable_window_bounds() {
    let i = info(2, 10, 2, 2);
    assert!(!is_repairable(&i, 10));
    assert!(!is_repairable(&i, 11));
    assert!(is_repairable(&i, 12));
    assert!(is_repairable(&i, 16));
    assert!(!is_repairable(&i, 17));
    assert!(!is_repairable(&i, 3));
}

#[test]
fn wrong_shard_rejects_every_mutation() {
    let mut sc = deploy();
    let far = Call::new(OWNER, OTHER_SHARD, 1);
    assert_eq!(sc.claim(&far), Err(ClaimError::WrongOrigin));
    assert_eq!(sc.claim_and_repair(&far, &price(), true), Err(ClaimError::WrongOrigin));
    assert_eq!(sc.update_state(&far, USER, 1, 1, 1, 1), Err(ClaimError::WrongOrigin));
    assert_eq!(sc.set_repair_streak_payment(&far, b"X".to_vec(), 3), Err(ClaimError::WrongOrigin));
    assert_eq!(sc.add_admin(&far, USER), Err(ClaimError::WrongOrigin));
    assert_eq!(sc.remove_admin(&far, OWNER), Err(ClaimError::WrongOrigin));
    assert_eq!(sc.get_address_info(OWNER), info(0, 0, 0, 0));
    assert_eq!(sc.get_address_info(USER), info(0, 0, 0, 0));
    assert_eq!(sc.admins(), vec![OWNER]);
    assert_eq!(sc.repair_streak_payment().token_id, b"TUD-fff707".to_vec());
}

#[test]
fn admin_overwrites_all_fields() {
    let mut sc = deploy();
    sc.claim(&at(USER, 4)).unwrap();
    let r = sc.update_state(&at(OWNER, 4), USER, 0, 1, 2, 3);
    assert_eq!(r, Ok(Event::NewUpdateState { address: USER, info: info(0, 1, 2, 3) }));
    assert_eq!(sc.get_address_info(USER), info(0, 1, 2, 3));
}

#[test]
fn non_admin_update_changes_nothing() {
    let mut sc = deploy();
    sc.claim(&at(USER, 4)).unwrap();
    assert_eq!(sc.update_state(&at(USER, 4), USER, 9, 9, 9, 9), Err(ClaimError::NotAuthorized));
    assert_eq!(sc.get_address_info(USER), info(1, 4, 1, 1));
}

#[test]
fn counters_at_their_limit_overflow() {
    let mut sc = deploy();
    sc.update_state(&at(OWNER, 1), USER, 1, 1, u64::MAX, 1).unwrap();
    assert_eq!(sc.claim(&at(USER, 2)), Err(ClaimError::CounterOverflow));
    assert_eq!(sc.claim(&at(USER, 5)), Err(ClaimError::CounterOverflow));
    sc.update_state(&at(OWNER, 1), USER, u64::MAX, 1, 1, u64::MAX).unwrap();
    assert_eq!(sc.claim(&at(USER, 2)), Err(ClaimError::CounterOverflow));
    assert_eq!(sc.claim(&at(USER, 5)), Ok(Event::NewClaim { address: USER, info: info(1, 5, 2, u64::MAX) }));
    assert_eq!(ClaimError::CounterOverflow.message(), "counter overflow");
}

#[test]
fn set_repair_payment_by_admin_only() {
    let mut sc = deploy();
    assert_eq!(sc.set_repair_streak_payment(&at(USER, 1), b"NEW-123456".to_vec(), 2), Err(ClaimError::NotAuthorized));
    assert_eq!(sc.set_repair_streak_payment(&at(OWNER, 1), b"NEW-123456".to_vec(), 2), Ok(Event::NewSetRepairPayment));
    let config = sc.repair_streak_payment();
    assert_eq!(config.token_id, b"NEW-123456".to_vec());
    assert_eq!(config.nonce, 2);
    sc.claim(&at(USER, 1)).unwrap();
    assert_eq!(sc.claim_and_repair(&at(USER, 3), &price(), true), Err(ClaimError::BadPayment));
    let new_pay = Payment::new(b"NEW-123456".to_vec(), 2, REPAIR_STREAK_PRICE);
    assert!(sc.claim_and_repair(&at(USER, 3), &new_pay, true).is_ok());
}

#[test]
fn admins_follow_adds_and_removes_in_order() {
    let mut sc = deploy();
    sc.add_admin(&at(OWNER, 1), 30).unwrap();
    sc.add_admin(&at(OWNER, 1), 40).unwrap();
    sc.add_admin(&at(OWNER, 1), 30).unwrap();
    assert_eq!(sc.admins(), vec![OWNER, 30, 40]);
    sc.remove_admin(&at(OWNER, 1), 30).unwrap();
    sc.remove_admin(&at(OWNER, 1), 99).unwrap();
    assert_eq!(sc.admins(), vec![OWNER, 40]);
    sc.add_admin(&at(OWNER, 1), 30).unwrap();
    assert_eq!(sc.admins(), vec![OWNER, 40, 30]);
    assert!(sc.is_admin(30));
    assert!(!sc.is_admin(99));
}

#[test]
fn only_owner_changes_admins() {
    let mut sc = deploy();
    sc.add_admin(&at(OWNER, 1), USER).unwrap();
    assert_eq!(sc.add_admin(&at(USER, 1), 50), Err(ClaimError::NotAuthorized));
    assert_eq!(sc.remove_admin(&at(USER, 1), OWNER), Err(ClaimError::NotAuthorized));
    assert_eq!(sc.admins(), vec![OWNER, USER]);
    sc.remove_admin(&at(OWNER, 1), OWNER).unwrap();
    assert!(!sc.is_admin(OWNER));
    assert_eq!(sc.update_state(&at(OWNER, 1), USER, 1, 1, 1, 1), Err(ClaimError::NotAuthorized));
    assert!(sc.update_state(&at(USER, 1), USER, 1, 1, 1, 1).is_ok());
}

#[test]
fn byte_comparison() {
    assert!(same_bytes(&b"abc".to_vec(), &b"abc".to_vec()));
    assert!(!same_bytes(&b"abc".to_vec(), &b"abd".to_vec()));
    assert!(!same_bytes(&b"abc".to_vec(), &b"ab".to_vec()));
    assert!(same_bytes(&Vec::new(), &Vec::new()));
}

#[derive(Default)]
struct Recorder {
    lines: Vec<String>,
}

impl EventsModule for Recorder {
    fn new_claim_event(&mut self, address: u64, info: &AddressInfo) {
        self.lines.push(format!("claim {} {}", address, info.current_streak));
    }

    fn new_claim_and_repair_event(&mut self, address: u64, info: &AddressInfo) {
        self.lines.push(format!("repair {} {}", address, info.current_streak));
    }

    fn new_update_state_event(&mut self, address: u64, info: &AddressInfo) {
        self.lines.push(format!("update {} {}", address, info.best_streak));
    }

    fn new_set_repair_payment_event(&mut self) {
        self.lines.push("payment".to_string());
    }
}

#[test]
fn events_reach_the_sink() {
    let mut sc = deploy();
    let mut sink = Recorder::default();
    let events = vec![
        sc.claim(&at(USER, 1)).unwrap(),
        sc.claim_and_repair(&at(USER, 3), &price(), true).unwrap(),
        sc.update_state(&at(OWNER, 3), USER, 1, 3, 2, 8).unwrap(),
        sc.set_repair_streak_payment(&at(OWNER, 3), b"A-000000".to_vec(), 0).unwrap(),
    ];
    for e in &events {
        emit(&mut sink, e);
    }
    assert_eq!(sink.lines, vec!["claim 20 1", "repair 20 2", "update 20 8", "payment"]);
}

fn deploys_with(token: &str) -> bool {
    OnChainClaim::new(OWNER, SHARD, token.as_bytes().to_vec(), 0).is_ok()
}

#[test]
fn token_identifier_shapes() {
    assert!(deploys_with("TUD-fff707"));
    assert!(deploys_with("ABCDEFGHIJ-a1b2c3"));
    assert!(deploys_with("A1B-000000"));
    assert!(!deploys_with("AB-fff707"));
    assert!(!deploys_with("ABCDEFGHIJK-fff707"));
    assert!(!deploys_with("tud-fff707"));
    assert!(!deploys_with("TUD-FFF707"));
    assert!(!deploys_with("TUD_fff707"));
    assert!(!deploys_with("TUD-fff70"));
    assert!(!deploys_with(""));
}

#[test]
fn record_without_streak_is_not_repairable() {
    let mut sc = deploy();
    sc.update_state(&at(OWNER, 2), USER, 0, 0, 0, 0).unwrap();
    assert!(!sc.can_be_repaired(USER, 2));
    assert_eq!(sc.claim_and_repair(&at(USER, 2), &price(), true), Err(ClaimError::NotRepairable));
    assert_eq!(sc.get_address_info(USER), info(0, 0, 0, 0));
    assert!(!is_repairable(&info(0, 10, 3, 4), 12));
}

#[test]
fn every_error_has_its_reason() {
    assert_eq!(ClaimError::NotRepairable.message(), "can't repair streak for current epoch");
    assert_eq!(ClaimError::CounterOverflow.message(), "counter overflow");
    assert_eq!(ClaimError::InvalidTokenId.message(), "Invalid token ID");
}
