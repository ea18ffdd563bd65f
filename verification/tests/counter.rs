use mate::db::MateDatabase;
use mate::memory::MemoryDatabase;
use mate::protocol::Relationship;
use mate::rules::{Direction, MateError};

const FRIENDS: u32 = 1;
const PENDING: u32 = 2;
const UNNAMED: u32 = 99;

fn alice_and_bob(status_id: u32, count: i32) -> MemoryDatabase {
    let mut db = MemoryDatabase::new();
    db.add_account(String::from("alice"), 1);
    db.add_account(String::from("bob"), 2);
    db.add_account(String::from("carol"), 3);
    db.add_status(FRIENDS, String::from("FRIENDS"));
    db.add_status(PENDING, String::from("PENDING"));
    db.put_relationship(1, 2, Relationship { count, status_id });
    db
}

fn stored(db: &mut MemoryDatabase, low: u32, high: u32) -> Option<Relationship> {
    db.get_relationship(low, high).unwrap()
}

#[test]
fn alice_and_bob_share_one_counter() {
    let mut db = alice_and_bob(FRIENDS, 0);
    assert_eq!(db.adjust_counter(1, String::from("bob"), Direction::Increase), Ok(1));
    assert_eq!(db.adjust_counter(2, String::from("alice"), Direction::Increase), Ok(0));
    assert_eq!(db.adjust_counter(1, String::from("bob"), Direction::Decrease), Ok(-1));
    assert_eq!(stored(&mut db, 1, 2), Some(Relationship { count: -1, status_id: FRIENDS }));
}

#[test]
fn increase_counter_and_decrease_counter_follow_the_same_scenario() {
    let mut db = alice_and_bob(FRIENDS, 0);
    assert_eq!(db.increase_counter(1, String::from("bob")), Ok(1));
    assert_eq!(db.increase_counter(2, String::from("alice")), Ok(0));
    assert_eq!(db.decrease_counter(1, String::from("bob")), Ok(-1));
    assert_eq!(db.decrease_counter(2, String::from("alice")), Ok(0));
}

#[test]
fn the_low_party_increases_to_one_more() {
    let mut db = alice_and_bob(FRIENDS, 41);
    assert_eq!(db.increase_counter(1, String::from("bob")), Ok(42));
    assert_eq!(stored(&mut db, 1, 2), Some(Relationship { count: 42, status_id: FRIENDS }));
}

#[test]
fn the_high_party_increases_to_one_less() {
    let mut db = alice_and_bob(FRIENDS, 41);
    assert_eq!(db.increase_counter(2, String::from("alice")), Ok(40));
    assert_eq!(stored(&mut db, 1, 2), Some(Relationship { count: 40, status_id: FRIENDS }));
}

#[test]
fn decrease_is_the_mirror_of_increase() {
    let mut db = alice_and_bob(FRIENDS, 41);
    assert_eq!(db.decrease_counter(1, String::from("bob")), Ok(40));
    let mut db = alice_and_bob(FRIENDS, 41);
    assert_eq!(db.decrease_counter(2, String::from("alice")), Ok(42));
}

#[test]
fn both_sides_write_the_same_row() {
    let mut db = alice_and_bob(FRIENDS, 0);
    assert_eq!(db.increase_counter(1, String::from("bob")), Ok(1));
    assert_eq!(db.decrease_counter(2, String::from("alice")), Ok(2));
    assert_eq!(stored(&mut db, 1, 2), Some(Relationship { count: 2, status_id: FRIENDS }));
    assert_eq!(stored(&mut db, 2, 1), None);
}

#[test]
fn a_relationship_is_filed_under_the_canonical_key_whoever_comes_first() {
    let mut db = MemoryDatabase::new();
    db.put_relationship(9, 4, Relationship { count: 3, status_id: FRIENDS });
    assert_eq!(stored(&mut db, 4, 9), Some(Relationship { count: 3, status_id: FRIENDS }));
    assert_eq!(stored(&mut db, 9, 4), None);
    db.put_relationship(4, 9, Relationship { count: 8, status_id: PENDING });
    assert_eq!(stored(&mut db, 4, 9), Some(Relationship { count: 8, status_id: PENDING }));
}

#[test]
fn a_pending_relationship_refuses_every_adjustment() {
    let mut db = alice_and_bob(PENDING, 5);
    assert_eq!(db.increase_counter(1, String::from("bob")), Err(MateError::RelationshipNotActive));
    assert_eq!(db.decrease_counter(1, String::from("bob")), Err(MateError::RelationshipNotActive));
    assert_eq!(
        db.increase_counter(2, String::from("alice")),
        Err(MateError::RelationshipNotActive)
    );
    assert_eq!(
        db.decrease_counter(2, String::from("alice")),
        Err(MateError::RelationshipNotActive)
    );
    assert_eq!(stored(&mut db, 1, 2), Some(Relationship { count: 5, status_id: PENDING }));
}

#[test]
fn an_unknown_counterpart_is_not_found_and_nothing_is_written() {
    let mut db = alice_and_bob(FRIENDS, 5);
    assert_eq!(db.increase_counter(1, String::from("mallory")), Err(MateError::NotFound));
    assert_eq!(db.decrease_counter(1, String::from("mallory")), Err(MateError::NotFound));
    assert_eq!(stored(&mut db, 1, 2), Some(Relationship { count: 5, status_id: FRIENDS }));
}

#[test]
fn accounts_without_a_row_have_no_relationship() {
    let mut db = alice_and_bob(FRIENDS, 5);
    assert_eq!(db.increase_counter(1, String::from("carol")), Err(MateError::NoRelationship));
    assert_eq!(db.decrease_counter(3, String::from("bob")), Err(MateError::NoRelationship));
    assert_eq!(stored(&mut db, 1, 3), None);
    assert_eq!(stored(&mut db, 1, 2), Some(Relationship { count: 5, status_id: FRIENDS }));
}

#[test]
fn an_unnamed_status_ends_the_adjustment_as_corrupt_state() {
    let mut db = alice_and_bob(UNNAMED, 5);
    assert_eq!(db.increase_counter(1, String::from("bob")), Err(MateError::CorruptState));
    assert_eq!(stored(&mut db, 1, 2), Some(Relationship { count: 5, status_id: UNNAMED }));
}

#[test]
fn adjustments_on_one_pair_leave_the_others_alone() {
    let mut db = alice_and_bob(FRIENDS, 0);
    db.put_relationship(3, 1, Relationship { count: 7, status_id: FRIENDS });
    assert_eq!(db.increase_counter(1, String::from("bob")), Ok(1));
    assert_eq!(stored(&mut db, 1, 3), Some(Relationship { count: 7, status_id: FRIENDS }));
    assert_eq!(db.increase_counter(3, String::from("alice")), Ok(6));
    assert_eq!(stored(&mut db, 1, 2), Some(Relationship { count: 1, status_id: FRIENDS }));
}

#[test]
fn increases_made_one_after_another_all_count() {
    let mut db = alice_and_bob(FRIENDS, 0);
    for expected in 1..=100 {
        assert_eq!(db.increase_counter(1, String::from("bob")), Ok(expected));
    }
    assert_eq!(stored(&mut db, 1, 2), Some(Relationship { count: 100, status_id: FRIENDS }));
}

#[test]
fn the_store_answers_the_questions_of_an_adjustment() {
    let mut db = alice_and_bob(FRIENDS, 0);
    assert_eq!(db.resolve_id("alice"), Ok(Some(1)));
    assert_eq!(db.resolve_id("mallory"), Ok(None));
    assert_eq!(db.get_status_name(FRIENDS), Ok(Some(String::from("FRIENDS"))));
    assert_eq!(db.get_status_name(UNNAMED), Ok(None));
    assert_eq!(db.set_count(2, 1, 12), Ok(()));
    assert_eq!(stored(&mut db, 1, 2), Some(Relationship { count: 12, status_id: FRIENDS }));
    assert_eq!(db.set_count(1, 3, 12), Ok(()));
    assert_eq!(stored(&mut db, 1, 3), None);
}

#[test]
fn a_later_account_takes_over_a_name() {
    let mut db = MemoryDatabase::new();
    db.add_account(String::from("alice"), 1);
    db.add_account(String::from("alice"), 5);
    assert_eq!(db.resolve_id("alice"), Ok(Some(5)));
}

#[test]
fn a_count_that_would_not_fit_is_not_written() {
    let mut db = alice_and_bob(FRIENDS, i32::MAX);
    assert_eq!(db.try_adjust_counter(1, String::from("bob"), Direction::Increase), None);
    assert_eq!(db.try_adjust_counter(2, String::from("alice"), Direction::Decrease), None);
    assert_eq!(stored(&mut db, 1, 2), Some(Relationship { count: i32::MAX, status_id: FRIENDS }));
    assert_eq!(
        db.try_adjust_counter(1, String::from("bob"), Direction::Decrease),
        Some(Ok(i32::MAX - 1))
    );
    let mut db = alice_and_bob(FRIENDS, i32::MIN);
    assert_eq!(db.try_adjust_counter(1, String::from("bob"), Direction::Decrease), None);
    assert_eq!(db.try_adjust_counter(1, String::from("bob"), Direction::Increase), Some(Ok(i32::MIN + 1)));
}

#[test]
fn try_adjust_counter_ends_like_adjust_counter_where_the_count_fits() {
    let mut db = alice_and_bob(FRIENDS, 0);
    assert_eq!(db.try_adjust_counter(1, String::from("bob"), Direction::Increase), Some(Ok(1)));
    assert_eq!(db.try_adjust_counter(2, String::from("alice"), Direction::Increase), Some(Ok(0)));
    assert_eq!(
        db.try_adjust_counter(1, String::from("mallory"), Direction::Increase),
        Some(Err(MateError::NotFound))
    );
    assert_eq!(
        db.try_adjust_counter(1, String::from("carol"), Direction::Increase),
        Some(Err(MateError::NoRelationship))
    );
}

#[test]
fn an_inactive_relationship_is_refused_even_at_the_end_of_the_range() {
    let mut db = alice_and_bob(PENDING, i32::MAX);
    assert_eq!(
        db.try_adjust_counter(1, String::from("bob"), Direction::Increase),
        Some(Err(MateError::RelationshipNotActive))
    );
    assert_eq!(db.increase_counter(1, String::from("bob")), Err(MateError::RelationshipNotActive));
    assert_eq!(stored(&mut db, 1, 2), Some(Relationship { count: i32::MAX, status_id: PENDING }));
}

async fn let_the_others_run() {
    let mut yielded = false;
    futures::future::poll_fn(|context| {
        if yielded {
            std::task::Poll::Ready(())
        } else {
            yielded = true;
            context.waker().wake_by_ref();
            std::task::Poll::Pending
        }
    })
    .await
}

#[test]
fn interleaved_increases_on_one_pair_lose_no_update() {
    let db = futures::lock::Mutex::new(alice_and_bob(FRIENDS, 0));
    let callers = 8;
    let calls_each = 25;
    let runs = (0..callers).map(|_| async {
        for _ in 0..calls_each {
            let outcome = db.lock().await.increase_counter(1, String::from("bob"));
            assert!(outcome.is_ok());
            let_the_others_run().await;
        }
    });
    futures::executor::block_on(futures::future::join_all(runs));
    let mut db = db.into_inner();
    assert_eq!(
        stored(&mut db, 1, 2),
        Some(Relationship { count: callers * calls_each, status_id: FRIENDS })
    );
}
