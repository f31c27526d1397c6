use scholar_contracts::course_milestone::{CourseConfig, CourseMilestone, Error, MilestoneStatus};
use scholar_contracts::learn_token::LearnToken;
use scholar_contracts::AccountId;

const ADMIN: AccountId = 1;
const LEARN_TOKEN: AccountId = 40;
const CONTRACT: AccountId = 41;

fn sid(value: &str) -> String {
    value.to_string()
}

fn setup() -> CourseMilestone {
    let mut client = CourseMilestone::new();
    client.initialize(ADMIN, LEARN_TOKEN).unwrap();
    client
}

/// The LRN token whose minter is the course contract.
fn lrn() -> LearnToken {
    let mut t = LearnToken::new();
    t.initialize(CONTRACT).unwrap();
    t
}

#[test]
fn add_course_and_get_course_work() {
    let mut client = setup();
    let course_id = sid("rust-101");

    client.add_course(ADMIN, course_id.clone(), 4).unwrap();

    let course = client.get_course(course_id).expect("course should be stored after add");
    assert_eq!(course, CourseConfig { milestone_count: 4, active: true });
}

#[test]
fn enrolls_learner() {
    let mut client = setup();
    let learner = 10;
    let course_id = sid("rust-101");

    client.add_course(ADMIN, course_id.clone(), 3).unwrap();
    client.enroll(learner, course_id.clone()).unwrap();

    assert!(client.is_enrolled(learner, course_id));
}

#[test]
fn duplicate_enroll_fails() {
    let mut client = setup();
    let learner = 10;
    let course_id = sid("rust-101");

    client.add_course(ADMIN, course_id.clone(), 10).unwrap();
    client.enroll(learner, course_id.clone()).unwrap();

    let result = client.enroll(learner, course_id);
    assert_eq!(result.err(), Some(Error::AlreadyEnrolled));
}

#[test]
fn submit_milestone_stores_pending_submission() {
    let mut client = setup();
    let learner = 10;
    let course_id = sid("rust-101");
    let evidence_uri = sid("ipfs://bafy-test-proof");

    client.add_course(ADMIN, course_id.clone(), 5).unwrap();
    client.enroll(learner, course_id.clone()).unwrap();
    client.submit_milestone(learner, course_id.clone(), 1, evidence_uri.clone()).unwrap();

    assert_eq!(client.get_milestone_state(learner, course_id.clone(), 1), MilestoneStatus::Pending);
    let submission = client
        .get_milestone_submission(learner, course_id, 1)
        .expect("submission should exist");
    assert_eq!(submission.evidence_uri, evidence_uri);
}

#[test]
fn duplicate_submission_is_rejected() {
    let mut client = setup();
    let learner = 10;
    let course_id = sid("rust-101");
    let evidence_uri = sid("ipfs://bafy-test-proof");

    client.add_course(ADMIN, course_id.clone(), 8).unwrap();
    client.enroll(learner, course_id.clone()).unwrap();
    client.submit_milestone(learner, course_id.clone(), 7, evidence_uri.clone()).unwrap();

    let result = client.submit_milestone(learner, course_id, 7, evidence_uri);
    assert_eq!(result, Err(Error::DuplicateSubmission));
}

#[test]
fn verify_milestone_mints_lrn_and_marks_completion() {
    let mut client = setup();
    let mut token = lrn();
    let learner = 10;
    let course_id = sid("rust-101");

    client.add_course(ADMIN, course_id.clone(), 3).unwrap();
    client.enroll(learner, course_id.clone()).unwrap();
    client.submit_milestone(learner, course_id.clone(), 1, sid("ipfs://proof")).unwrap();

    let owed = client.verify_milestone(ADMIN, learner, course_id.clone(), 1, 125).unwrap();
    token.mint(CONTRACT, learner, owed).unwrap();

    assert_eq!(client.get_milestone_status(learner, course_id.clone(), 1), MilestoneStatus::Approved);
    assert!(client.is_completed(learner, course_id, 1));
    assert_eq!(token.balance(learner), 125);
}

#[test]
fn verify_milestone_fails_for_non_admin() {
    let mut client = setup();
    let learner = 10;
    let attacker = 66;
    let course_id = sid("rust-101");

    client.add_course(ADMIN, course_id.clone(), 3).unwrap();
    client.enroll(learner, course_id.clone()).unwrap();
    client.submit_milestone(learner, course_id.clone(), 1, sid("ipfs://proof")).unwrap();

    let result = client.verify_milestone(attacker, learner, course_id.clone(), 1, 125);
    assert_eq!(result.err(), Some(Error::Unauthorized));
    assert_eq!(client.get_milestone_status(learner, course_id, 1), MilestoneStatus::Pending);
}

#[test]
fn verify_twice_is_invalid_state() {
    let mut client = setup();
    let learner = 10;
    let course_id = sid("rust-101");

    client.add_course(ADMIN, course_id.clone(), 5).unwrap();
    client.enroll(learner, course_id.clone()).unwrap();
    client.submit_milestone(learner, course_id.clone(), 1, sid("ipfs://bafy-proof")).unwrap();
    client.verify_milestone(ADMIN, learner, course_id.clone(), 1, 100).unwrap();

    let result = client.verify_milestone(ADMIN, learner, course_id, 1, 100);
    assert_eq!(result.err(), Some(Error::InvalidState));
}

#[test]
fn reject_milestone_marks_rejected_and_clears_submission() {
    let mut client = setup();
    let learner = 10;
    let course_id = sid("rust-101");

    client.add_course(ADMIN, course_id.clone(), 3).unwrap();
    client.enroll(learner, course_id.clone()).unwrap();
    client.submit_milestone(learner, course_id.clone(), 1, sid("ipfs://proof")).unwrap();
    client.reject_milestone(ADMIN, learner, course_id.clone(), 1).unwrap();

    assert_eq!(client.get_milestone_status(learner, course_id.clone(), 1), MilestoneStatus::Rejected);
    assert!(client.get_milestone_submission(learner, course_id.clone(), 1).is_none());

    client.submit_milestone(learner, course_id.clone(), 1, sid("ipfs://second-try")).unwrap();
    assert_eq!(client.get_milestone_status(learner, course_id, 1), MilestoneStatus::Pending);
}

#[test]
fn reject_milestone_fails_for_non_admin() {
    let mut client = setup();
    let learner = 10;
    let non_admin = 67;
    let course_id = sid("rust-101");

    client.add_course(ADMIN, course_id.clone(), 5).unwrap();
    client.enroll(learner, course_id.clone()).unwrap();
    client.submit_milestone(learner, course_id.clone(), 1, sid("ipfs://bafy-proof")).unwrap();

    let result = client.reject_milestone(non_admin, learner, course_id.clone(), 1);
    assert_eq!(result, Err(Error::Unauthorized));
    assert!(client.get_milestone_submission(learner, course_id, 1).is_some());
}

#[test]
fn set_milestone_reward_stores_config() {
    let mut client = setup();
    let course_id = sid("rust-101");

    client.add_course(ADMIN, course_id.clone(), 3).unwrap();
    client.set_milestone_reward(ADMIN, course_id.clone(), 1, 75).unwrap();

    assert_eq!(client.get_milestone_reward(course_id.clone(), 1), 75);
    assert_eq!(client.get_milestone_reward(course_id, 2), 0);
}

#[test]
fn get_milestone_status_returns_not_started_by_default() {
    let client = setup();
    assert_eq!(client.get_milestone_state(10, sid("rust-101"), 1), MilestoneStatus::NotStarted);
}

#[test]
fn complete_milestone_marks_completion_and_emits_reward_event() {
    let mut client = setup();
    let mut token = lrn();
    let learner = 10;
    let course_id = sid("rust-101");

    client.add_course(ADMIN, course_id.clone(), 3).unwrap();
    client.enroll(learner, course_id.clone()).unwrap();
    client.set_milestone_reward(ADMIN, course_id.clone(), 2, 75).unwrap();

    let event = client.complete_milestone(ADMIN, learner, course_id.clone(), 2).unwrap();
    token.mint(CONTRACT, learner, event.lrn_reward).unwrap();

    assert!(client.is_completed(learner, course_id.clone(), 2));
    assert_eq!(client.get_milestone_status(learner, course_id.clone(), 2), MilestoneStatus::Approved);
    assert_eq!(event.learner, learner);
    assert_eq!(event.course_id, course_id);
    assert_eq!(event.milestone_id, 2);
    assert_eq!(event.lrn_reward, 75);
    assert_eq!(token.balance(learner), 75);
}

#[test]
fn complete_milestone_fails_when_already_completed() {
    let mut client = setup();
    let learner = 10;
    let course_id = sid("rust-101");

    client.add_course(ADMIN, course_id.clone(), 3).unwrap();
    client.enroll(learner, course_id.clone()).unwrap();
    client.complete_milestone(ADMIN, learner, course_id.clone(), 1).unwrap();

    let result = client.complete_milestone(ADMIN, learner, course_id, 1);
    assert_eq!(result.err().unwrap(), Error::AlreadyCompleted);
}

#[test]
fn complete_milestone_fails_for_non_enrolled_learner() {
    let mut client = setup();
    let learner = 10;
    let course_id = sid("rust-101");

    client.add_course(ADMIN, course_id.clone(), 3).unwrap();

    let result = client.complete_milestone(ADMIN, learner, course_id, 1);
    assert_eq!(result.err().unwrap(), Error::NotEnrolled);
}

#[test]
fn complete_milestone_fails_without_admin_auth() {
    let mut client = setup();
    let learner = 10;
    let attacker = 66;
    let course_id = sid("rust-101");

    client.add_course(ADMIN, course_id.clone(), 3).unwrap();
    client.enroll(learner, course_id.clone()).unwrap();

    let result = client.complete_milestone(attacker, learner, course_id.clone(), 1);
    assert!(result.is_err());
    assert!(!client.is_completed(learner, course_id, 1));
}

#[test]
fn pause_blocks_reject_milestone() {
    let mut client = setup();
    let learner = 10;
    let course_id = sid("rust-101");

    client.add_course(ADMIN, course_id.clone(), 1).unwrap();
    client.enroll(learner, course_id.clone()).unwrap();
    client.submit_milestone(learner, course_id.clone(), 1, sid("ipfs://proof")).unwrap();
    client.pause(ADMIN).unwrap();

    let result = client.reject_milestone(ADMIN, learner, course_id.clone(), 1);
    assert_eq!(result, Err(Error::ContractPaused));
    assert!(client.is_paused());

    client.unpause(ADMIN).unwrap();
    client.reject_milestone(ADMIN, learner, course_id.clone(), 1).unwrap();
    assert_eq!(client.get_milestone_status(learner, course_id, 1), MilestoneStatus::Rejected);
}

#[test]
fn get_enrolled_courses_returns_empty_for_new_learner() {
    let client = setup();
    assert_eq!(client.get_enrolled_courses(10).len(), 0);
}

#[test]
fn get_enrolled_courses_returns_enrolled_courses() {
    let mut client = setup();
    let learner = 10;

    client.add_course(ADMIN, sid("rust-101"), 3).unwrap();
    client.add_course(ADMIN, sid("defi-201"), 6).unwrap();
    client.enroll(learner, sid("rust-101")).unwrap();
    client.enroll(learner, sid("defi-201")).unwrap();

    let courses = client.get_enrolled_courses(learner);
    assert_eq!(courses.len(), 2);
    assert_eq!(courses[0], sid("rust-101"));
    assert_eq!(courses[1], sid("defi-201"));
}

#[test]
fn get_enrolled_courses_is_per_learner() {
    let mut client = setup();
    let learner_a = 10;
    let learner_b = 11;

    client.add_course(ADMIN, sid("rust-101"), 3).unwrap();
    client.add_course(ADMIN, sid("defi-201"), 6).unwrap();
    client.enroll(learner_a, sid("rust-101")).unwrap();
    client.enroll(learner_a, sid("defi-201")).unwrap();
    client.enroll(learner_b, sid("rust-101")).unwrap();

    assert_eq!(client.get_enrolled_courses(learner_a).len(), 2);
    assert_eq!(client.get_enrolled_courses(learner_b), vec![sid("rust-101")]);
}

#[test]
fn get_version_returns_semver() {
    let client = setup();
    assert_eq!(client.get_version(), sid("1.0.0"));
}

#[test]
fn list_courses_returns_empty_when_none_exist() {
    let client = setup();
    assert_eq!(client.list_courses().len(), 0);
}

#[test]
fn list_courses_returns_only_active_courses() {
    let mut client = setup();
    let course_a = sid("rust-101");
    let course_b = sid("defi-201");

    client.add_course(ADMIN, course_a.clone(), 5).unwrap();
    client.add_course(ADMIN, course_b.clone(), 7).unwrap();
    client.remove_course(ADMIN, course_b).unwrap();

    let courses = client.list_courses();
    assert_eq!(courses.len(), 1);
    assert_eq!(courses[0], course_a);
}

#[test]
fn remove_course_marks_course_inactive() {
    let mut client = setup();
    let course_id = sid("rust-101");
    let learner = 10;

    client.add_course(ADMIN, course_id.clone(), 4).unwrap();
    client.remove_course(ADMIN, course_id.clone()).unwrap();

    let stored = client.get_course(course_id.clone()).expect("course should remain stored");
    assert!(!stored.active);

    let result = client.enroll(learner, course_id);
    assert_eq!(result.err(), Some(Error::CourseNotFound));
}

#[test]
fn non_admin_cannot_add_course() {
    let mut client = setup();
    let result = client.add_course(66, sid("rust-101"), 3);
    assert_eq!(result.err(), Some(Error::Unauthorized));
    assert!(client.get_course(sid("rust-101")).is_none());
}

#[test]
fn non_admin_cannot_remove_course() {
    let mut client = setup();
    let course_id = sid("rust-101");
    client.add_course(ADMIN, course_id.clone(), 3).unwrap();

    let result = client.remove_course(66, course_id.clone());
    assert_eq!(result.err(), Some(Error::Unauthorized));
    assert!(client.get_course(course_id).unwrap().active);
}

#[test]
fn enroll_rejects_unknown_course() {
    let mut client = setup();
    let result = client.enroll(10, sid("missing"));
    assert_eq!(result.err(), Some(Error::CourseNotFound));
}

#[test]
fn duplicate_course_id_is_rejected() {
    let mut client = setup();
    let course_id = sid("rust-101");

    client.add_course(ADMIN, course_id.clone(), 3).unwrap();
    let result = client.add_course(ADMIN, course_id, 3);
    assert_eq!(result.err(), Some(Error::CourseAlreadyExists));
}

#[test]
fn zero_milestone_count_is_rejected() {
    let mut client = setup();
    let result = client.add_course(ADMIN, sid("rust-101"), 0);
    assert_eq!(result.err(), Some(Error::InvalidMilestoneCount));
}

#[test]
fn multiple_courses_are_stored() {
    let mut client = setup();
    client.add_course(ADMIN, sid("rust-101"), 3).unwrap();
    client.add_course(ADMIN, sid("defi-201"), 5).unwrap();
    client.add_course(ADMIN, sid("soroban-301"), 8).unwrap();

    assert_eq!(
        client.list_courses(),
        vec![sid("rust-101"), sid("defi-201"), sid("soroban-301")]
    );
}

#[test]
fn milestone_out_of_range_is_invalid() {
    let mut client = setup();
    let learner = 10;
    let course_id = sid("rust-101");
    client.add_course(ADMIN, course_id.clone(), 2).unwrap();
    client.enroll(learner, course_id.clone()).unwrap();
    assert_eq!(
        client.submit_milestone(learner, course_id.clone(), 0, sid("x")),
        Err(Error::InvalidMilestone)
    );
    assert_eq!(
        client.submit_milestone(learner, course_id.clone(), 3, sid("x")),
        Err(Error::InvalidMilestone)
    );
    assert_eq!(
        client.set_milestone_reward(ADMIN, course_id.clone(), 3, 10),
        Err(Error::InvalidMilestone)
    );
    assert_eq!(
        client.set_milestone_reward(ADMIN, course_id, 1, -1),
        Err(Error::InvalidAmount)
    );
}

#[test]
fn submit_requires_enrollment() {
    let mut client = setup();
    let course_id = sid("rust-101");
    client.add_course(ADMIN, course_id.clone(), 2).unwrap();
    assert_eq!(
        client.submit_milestone(10, course_id, 1, sid("x")),
        Err(Error::NotEnrolled)
    );
}

#[test]
fn uninitialized_contract_refuses_admin_calls() {
    let mut client = CourseMilestone::new();
    assert_eq!(client.add_course(ADMIN, sid("rust-101"), 3), Err(Error::NotInitialized));
    assert_eq!(client.pause(ADMIN), Err(Error::NotInitialized));
    client.initialize(ADMIN, LEARN_TOKEN).unwrap();
    assert_eq!(client.initialize(2, 3), Err(Error::AlreadyInitialized));
    assert_eq!(client.learn_token(), LEARN_TOKEN);
}

#[test]
fn negative_verification_amount_is_refused() {
    let mut client = setup();
    let learner = 10;
    let course_id = sid("rust-101");
    client.add_course(ADMIN, course_id.clone(), 2).unwrap();
    client.enroll(learner, course_id.clone()).unwrap();
    client.submit_milestone(learner, course_id.clone(), 1, sid("x")).unwrap();
    assert_eq!(
        client.verify_milestone(ADMIN, learner, course_id, 1, -5),
        Err(Error::InvalidAmount)
    );
}

#[test]
fn pause_blocks_progress() {
    let mut client = setup();
    let learner = 10;
    let course_id = sid("rust-101");
    client.add_course(ADMIN, course_id.clone(), 3).unwrap();
    client.enroll(learner, course_id.clone()).unwrap();
    client.submit_milestone(learner, course_id.clone(), 1, sid("ipfs://p")).unwrap();
    client.pause(ADMIN).unwrap();

    assert_eq!(client.enroll(11, course_id.clone()), Err(Error::ContractPaused));
    assert_eq!(
        client.submit_milestone(learner, course_id.clone(), 2, sid("ipfs://q")),
        Err(Error::ContractPaused)
    );
    assert_eq!(
        client.verify_milestone(ADMIN, learner, course_id.clone(), 1, 10),
        Err(Error::ContractPaused)
    );
    assert_eq!(
        client.complete_milestone(ADMIN, learner, course_id.clone(), 2).err(),
        Some(Error::ContractPaused)
    );
    assert_eq!(client.get_milestone_status(learner, course_id, 1), MilestoneStatus::Pending);
    assert_eq!(client.pause(66), Err(Error::Unauthorized));
}

#[test]
fn approved_milestone_stays_approved() {
    let mut client = setup();
    let learner = 10;
    let course_id = sid("rust-101");
    client.add_course(ADMIN, course_id.clone(), 3).unwrap();
    client.enroll(learner, course_id.clone()).unwrap();
    client.submit_milestone(learner, course_id.clone(), 1, sid("ipfs://p")).unwrap();
    assert_eq!(client.verify_milestone(ADMIN, learner, course_id.clone(), 1, 10), Ok(10));

    assert_eq!(
        client.submit_milestone(learner, course_id.clone(), 1, sid("ipfs://again")),
        Err(Error::DuplicateSubmission)
    );
    assert_eq!(
        client.reject_milestone(ADMIN, learner, course_id.clone(), 1),
        Err(Error::InvalidState)
    );
    assert_eq!(
        client.complete_milestone(ADMIN, learner, course_id.clone(), 1).err(),
        Some(Error::AlreadyCompleted)
    );
    assert_eq!(client.get_milestone_status(learner, course_id.clone(), 1), MilestoneStatus::Approved);
    assert!(client.is_completed(learner, course_id, 1));
}

#[test]
fn complete_without_reward_pays_nothing() {
    let mut client = setup();
    let learner = 10;
    let course_id = sid("rust-101");
    client.add_course(ADMIN, course_id.clone(), 3).unwrap();
    client.enroll(learner, course_id.clone()).unwrap();
    let event = client.complete_milestone(ADMIN, learner, course_id.clone(), 3).unwrap();
    assert_eq!(event.lrn_reward, 0);
    assert_eq!(
        client.complete_milestone(ADMIN, learner, course_id, 4).err(),
        Some(Error::InvalidMilestone)
    );
}
