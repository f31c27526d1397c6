//! Courses split into milestones. Learners enroll and submit evidence for a
//! milestone; the admin approves it (granting LRN) or rejects it, and may
//! also mark a milestone complete directly, paying the configured reward.
use vstd::prelude::*;

use crate::table::{Table, TableKey};
use crate::{outcome, outcome_with, string_views, AccountId};

verus! {

#[derive(Clone, Copy, Debug, PartialEq, Eq, Structural)]
pub enum Error {
    AlreadyInitialized,
    NotInitialized,
    Unauthorized,
    CourseNotFound,
    CourseAlreadyExists,
    InvalidMilestoneCount,
    AlreadyEnrolled,
    NotEnrolled,
    InvalidMilestone,
    DuplicateSubmission,
    InvalidState,
    AlreadyCompleted,
    ContractPaused,
    InvalidAmount,
}

#[derive(Clone, Copy, Debug, PartialEq, Eq, Structural)]
pub struct CourseConfig {
    pub milestone_count: u32,
    pub active: bool,
}

impl View for CourseConfig {
    type V = CourseConfig;

    open spec fn view(&self) -> CourseConfig {
        *self
    }
}

#[derive(Clone, Copy, Debug, PartialEq, Eq, Structural)]
pub enum MilestoneStatus {
    NotStarted,
    Pending,
    Approved,
    Rejected,
}

impl View for MilestoneStatus {
    type V = MilestoneStatus;

    open spec fn view(&self) -> MilestoneStatus {
        *self
    }
}

/// The evidence a learner handed in for a milestone.
#[derive(Debug)]
pub struct MilestoneSubmission {
    pub evidence_uri: String,
}

/// Announced when the admin marks a milestone complete, with the LRN paid.
#[derive(Debug)]
pub struct MilestoneCompleted {
    pub learner: AccountId,
    pub course_id: String,
    pub milestone_id: u32,
    pub lrn_reward: i128,
}

/// The enrollments of `learner`, in the order they were made, as course ids.
pub open spec fn courses_of(learner: AccountId, enrollments: Seq<(AccountId, Seq<char>)>) -> Seq<
    Seq<char>,
>
    decreases enrollments.len(),
{
    if enrollments.len() == 0 {
        Seq::empty()
    } else {
        let earlier = courses_of(learner, enrollments.drop_last());
        let last = enrollments.last();
        if last.0 == learner {
            earlier.push(last.1)
        } else {
            earlier
        }
    }
}

#[verifier::ext_equal]
pub struct CourseMilestoneModel {
    pub admin: Option<AccountId>,
    pub learn_token: AccountId,
    pub paused: bool,
    /// Course ids in the order they were added.
    pub course_order: Seq<Seq<char>>,
    pub courses: Map<Seq<char>, CourseConfig>,
    /// (learner, course) pairs in the order the learners enrolled.
    pub enrollments: Seq<(AccountId, Seq<char>)>,
    pub statuses: Map<(AccountId, Seq<char>, u32), MilestoneStatus>,
    /// Evidence URIs of submissions that have not been rejected.
    pub submissions: Map<(AccountId, Seq<char>, u32), Seq<char>>,
    pub completed: Set<(AccountId, Seq<char>, u32)>,
    /// LRN paid for completing a milestone of a course.
    pub rewards: Map<(Seq<char>, u32), i128>,
}

impl CourseMilestoneModel {
    /// Every milestone waiting for review has its evidence on file.
    pub open spec fn pending_has_evidence(self) -> bool {
        forall|k: (AccountId, Seq<char>, u32)| #[trigger]
            self.statuses.contains_key(k) && self.statuses[k] == MilestoneStatus::Pending
                ==> self.submissions.contains_key(k)
    }

    /// The ordered course ids are exactly the stored courses.
    pub open spec fn wf(self) -> bool {
        forall|id: Seq<char>| #[trigger]
            self.courses.contains_key(id) <==> self.course_order.contains(id)
    }

    pub open spec fn course(self, id: Seq<char>) -> Option<CourseConfig> {
        if self.courses.contains_key(id) {
            Some(self.courses[id])
        } else {
            None
        }
    }

    /// A course that exists and has not been removed.
    pub open spec fn is_open(self, id: Seq<char>) -> bool {
        self.courses.contains_key(id) && self.courses[id].active
    }

    pub open spec fn active_filter(self) -> spec_fn(Seq<char>) -> bool {
        |id: Seq<char>| self.courses[id].active
    }

    /// The ids of the courses not removed, in the order they were added.
    pub open spec fn active_courses(self) -> Seq<Seq<char>> {
        self.course_order.filter(self.active_filter())
    }

    pub open spec fn is_enrolled(self, learner: AccountId, course_id: Seq<char>) -> bool {
        self.enrollments.contains((learner, course_id))
    }

    pub open spec fn enrolled_courses(self, learner: AccountId) -> Seq<Seq<char>> {
        courses_of(learner, self.enrollments)
    }

    pub open spec fn is_valid_milestone(self, course_id: Seq<char>, milestone_id: u32) -> bool {
        1 <= milestone_id <= self.courses[course_id].milestone_count
    }

    pub open spec fn status(self, learner: AccountId, course_id: Seq<char>, milestone_id: u32) -> MilestoneStatus {
        let k = (learner, course_id, milestone_id);
        if self.statuses.contains_key(k) {
            self.statuses[k]
        } else {
            MilestoneStatus::NotStarted
        }
    }

    pub open spec fn submission(self, learner: AccountId, course_id: Seq<char>, milestone_id: u32) -> Option<Seq<char>> {
        let k = (learner, course_id, milestone_id);
        if self.submissions.contains_key(k) {
            Some(self.submissions[k])
        } else {
            None
        }
    }

    pub open spec fn is_completed(self, learner: AccountId, course_id: Seq<char>, milestone_id: u32) -> bool {
        self.completed.contains((learner, course_id, milestone_id))
    }

    pub open spec fn reward(self, course_id: Seq<char>, milestone_id: u32) -> i128 {
        if self.rewards.contains_key((course_id, milestone_id)) {
            self.rewards[(course_id, milestone_id)]
        } else {
            0
        }
    }

    /// Why `caller` may not act as admin, if it may not.
    pub open spec fn admin_error(self, caller: AccountId) -> Option<Error> {
        match self.admin {
            None => Some(Error::NotInitialized),
            Some(admin) => if caller != admin {
                Some(Error::Unauthorized)
            } else {
                None
            },
        }
    }

    pub open spec fn initialize(self, admin: AccountId, learn_token: AccountId) -> Result<Self, Error> {
        if self.admin is Some {
            Err(Error::AlreadyInitialized)
        } else {
            Ok(CourseMilestoneModel { admin: Some(admin), learn_token, ..self })
        }
    }

    pub open spec fn add_course(self, caller: AccountId, course_id: Seq<char>, milestone_count: u32) -> Result<Self, Error> {
        match self.admin_error(caller) {
            Some(e) => Err(e),
            None => if milestone_count == 0 {
                Err(Error::InvalidMilestoneCount)
            } else if self.courses.contains_key(course_id) {
                Err(Error::CourseAlreadyExists)
            } else {
                Ok(
                    CourseMilestoneModel {
                        course_order: self.course_order.push(course_id),
                        courses: self.courses.insert(
                            course_id,
                            CourseConfig { milestone_count, active: true },
                        ),
                        ..self
                    },
                )
            },
        }
    }

    /// Removing keeps the course's record but closes it.
    pub open spec fn remove_course(self, caller: AccountId, course_id: Seq<char>) -> Result<Self, Error> {
        match self.admin_error(caller) {
            Some(e) => Err(e),
            None => if !self.courses.contains_key(course_id) {
                Err(Error::CourseNotFound)
            } else {
                Ok(
                    CourseMilestoneModel {
                        courses: self.courses.insert(
                            course_id,
                            CourseConfig { active: false, ..self.courses[course_id] },
                        ),
                        ..self
                    },
                )
            },
        }
    }

    pub open spec fn enroll(self, learner: AccountId, course_id: Seq<char>) -> Result<Self, Error> {
        if self.paused {
            Err(Error::ContractPaused)
        } else if !self.is_open(course_id) {
            Err(Error::CourseNotFound)
        } else if self.is_enrolled(learner, course_id) {
            Err(Error::AlreadyEnrolled)
        } else {
            Ok(
                CourseMilestoneModel {
                    enrollments: self.enrollments.push((learner, course_id)),
                    ..self
                },
            )
        }
    }

    pub open spec fn submit_milestone(
        self,
        learner: AccountId,
        course_id: Seq<char>,
        milestone_id: u32,
        evidence_uri: Seq<char>,
    ) -> Result<Self, Error> {
        let k = (learner, course_id, milestone_id);
        if self.paused {
            Err(Error::ContractPaused)
        } else if !self.is_open(course_id) {
            Err(Error::CourseNotFound)
        } else if !self.is_enrolled(learner, course_id) {
            Err(Error::NotEnrolled)
        } else if !self.is_valid_milestone(course_id, milestone_id) {
            Err(Error::InvalidMilestone)
        } else if self.status(learner, course_id, milestone_id) == MilestoneStatus::Pending
            || self.status(learner, course_id, milestone_id) == MilestoneStatus::Approved {
            Err(Error::DuplicateSubmission)
        } else {
            Ok(
                CourseMilestoneModel {
                    statuses: self.statuses.insert(k, MilestoneStatus::Pending),
                    submissions: self.submissions.insert(k, evidence_uri),
                    ..self
                },
            )
        }
    }

    /// The admin approves a pending submission; the learner is owed
    /// `lrn_amount` LRN.
    pub open spec fn verify_milestone(
        self,
        caller: AccountId,
        learner: AccountId,
        course_id: Seq<char>,
        milestone_id: u32,
        lrn_amount: i128,
    ) -> Result<(Self, i128), Error> {
        let k = (learner, course_id, milestone_id);
        if self.paused {
            Err(Error::ContractPaused)
        } else {
            match self.admin_error(caller) {
                Some(e) => Err(e),
                None => if lrn_amount < 0 {
                    Err(Error::InvalidAmount)
                } else if self.status(learner, course_id, milestone_id)
                    != MilestoneStatus::Pending {
                    Err(Error::InvalidState)
                } else {
                    Ok(
                        (
                            CourseMilestoneModel {
                                statuses: self.statuses.insert(k, MilestoneStatus::Approved),
                                completed: self.completed.insert(k),
                                ..self
                            },
                            lrn_amount,
                        ),
                    )
                },
            }
        }
    }

    /// The admin turns down a pending submission and discards its evidence.
    pub open spec fn reject_milestone(
        self,
        caller: AccountId,
        learner: AccountId,
        course_id: Seq<char>,
        milestone_id: u32,
    ) -> Result<Self, Error> {
        let k = (learner, course_id, milestone_id);
        if self.paused {
            Err(Error::ContractPaused)
        } else {
            match self.admin_error(caller) {
                Some(e) => Err(e),
                None => if self.status(learner, course_id, milestone_id)
                    != MilestoneStatus::Pending {
                    Err(Error::InvalidState)
                } else {
                    Ok(
                        CourseMilestoneModel {
                            statuses: self.statuses.insert(k, MilestoneStatus::Rejected),
                            submissions: self.submissions.remove(k),
                            ..self
                        },
                    )
                },
            }
        }
    }

    pub open spec fn set_milestone_reward(
        self,
        caller: AccountId,
        course_id: Seq<char>,
        milestone_id: u32,
        amount: i128,
    ) -> Result<Self, Error> {
        match self.admin_error(caller) {
            Some(e) => Err(e),
            None => if !self.courses.contains_key(course_id) {
                Err(Error::CourseNotFound)
            } else if !self.is_valid_milestone(course_id, milestone_id) {
                Err(Error::InvalidMilestone)
            } else if amount < 0 {
                Err(Error::InvalidAmount)
            } else {
                Ok(
                    CourseMilestoneModel {
                        rewards: self.rewards.insert((course_id, milestone_id), amount),
                        ..self
                    },
                )
            },
        }
    }

    /// The admin marks a milestone of an enrolled learner complete; the
    /// learner is owed the milestone's configured reward.
    pub open spec fn complete_milestone(
        self,
        caller: AccountId,
        learner: AccountId,
        course_id: Seq<char>,
        milestone_id: u32,
    ) -> Result<(Self, i128), Error> {
        let k = (learner, course_id, milestone_id);
        if self.paused {
            Err(Error::ContractPaused)
        } else {
            match self.admin_error(caller) {
                Some(e) => Err(e),
                None => if !self.courses.contains_key(course_id) {
                    Err(Error::CourseNotFound)
                } else if !self.is_enrolled(learner, course_id) {
                    Err(Error::NotEnrolled)
                } else if !self.is_valid_milestone(course_id, milestone_id) {
                    Err(Error::InvalidMilestone)
                } else if self.is_completed(learner, course_id, milestone_id) {
                    Err(Error::AlreadyCompleted)
                } else {
                    Ok(
                        (
                            CourseMilestoneModel {
                                statuses: self.statuses.insert(k, MilestoneStatus::Approved),
                                completed: self.completed.insert(k),
                                ..self
                            },
                            self.reward(course_id, milestone_id),
                        ),
                    )
                },
            }
        }
    }

    pub open spec fn set_paused(self, caller: AccountId, paused: bool) -> Result<Self, Error> {
        match self.admin_error(caller) {
            Some(e) => Err(e),
            None => Ok(CourseMilestoneModel { paused, ..self }),
        }
    }
}

pub struct CourseMilestone {
    admin: Option<AccountId>,
    learn_token: AccountId,
    paused: bool,
    courses: Table<String, CourseConfig>,
    enrollments: Table<(AccountId, String), ()>,
    statuses: Table<(AccountId, String, u32), MilestoneStatus>,
    submissions: Table<(AccountId, String, u32), String>,
    completed: Table<(AccountId, String, u32), ()>,
    rewards: Table<(String, u32), i128>,
}

impl View for CourseMilestone {
    type V = CourseMilestoneModel;

    closed spec fn view(&self) -> CourseMilestoneModel {
        CourseMilestoneModel {
            admin: self.admin,
            learn_token: self.learn_token,
            paused: self.paused,
            course_order: self.courses.keys(),
            courses: self.courses@,
            enrollments: self.enrollments.keys(),
            statuses: self.statuses@,
            submissions: self.submissions@,
            completed: self.completed@.dom(),
            rewards: self.rewards@,
        }
    }
}


impl CourseMilestone {
    /// An uninitialized contract with no courses.
    pub fn new() -> (c: Self)
        ensures
            c@.admin is None,
            !c@.paused,
            c@.course_order == Seq::<Seq<char>>::empty(),
            c@.courses == Map::<Seq<char>, CourseConfig>::empty(),
            c@.enrollments == Seq::<(AccountId, Seq<char>)>::empty(),
            c@.statuses == Map::<(AccountId, Seq<char>, u32), MilestoneStatus>::empty(),
            c@.submissions == Map::<(AccountId, Seq<char>, u32), Seq<char>>::empty(),
            c@.completed == Set::<(AccountId, Seq<char>, u32)>::empty(),
            c@.rewards == Map::<(Seq<char>, u32), i128>::empty(),
    {
        let c = CourseMilestone {
            admin: None,
            learn_token: 0,
            paused: false,
            courses: Table::new(),
            enrollments: Table::new(),
            statuses: Table::new(),
            submissions: Table::new(),
            completed: Table::new(),
            rewards: Table::new(),
        };
        assert(c@.completed =~= Set::<(AccountId, Seq<char>, u32)>::empty());
        c
    }

    /// The model of every contract keeps its ordered course ids and its
    /// course records in step.
    pub proof fn lemma_wf(&self)
        ensures
            self@.wf(),
    {
        self.courses.lemma_dom();
    }

    fn admin_check(&self, caller: AccountId) -> (r: Result<(), Error>)
        ensures
            match self@.admin_error(caller) {
                Some(e) => r == Err::<(), Error>(e),
                None => r is Ok,
            },
    {
        match self.admin {
            None => Err(Error::NotInitialized),
            Some(admin) => if caller != admin {
                Err(Error::Unauthorized)
            } else {
                Ok(())
            },
        }
    }

    fn status_of(&self, key: &(AccountId, String, u32)) -> (r: MilestoneStatus)
        ensures
            r == self@.status(key.0, key.1@, key.2),
    {
        match self.statuses.get(key) {
            Some(s) => *s,
            None => MilestoneStatus::NotStarted,
        }
    }

    fn enrolled(&self, learner: AccountId, course_id: &String) -> (r: bool)
        ensures
            r == self@.is_enrolled(learner, course_id@),
    {
        proof {
            self.enrollments.lemma_dom();
        }
        self.enrollments.contains_key(&(learner, course_id.clone()))
    }

    pub fn initialize(&mut self, admin: AccountId, learn_token: AccountId) -> (r: Result<(), Error>)
        ensures
            outcome(old(self)@.initialize(admin, learn_token), old(self)@, final(self)@, r),
    {
        if self.admin.is_some() {
            return Err(Error::AlreadyInitialized);
        }
        self.admin = Some(admin);
        self.learn_token = learn_token;
        assert(self@ =~= old(self)@.initialize(admin, learn_token).unwrap());
        Ok(())
    }

    pub fn get_version(&self) -> (r: String)
        ensures
            r@ == "1.0.0"@,
    {
        String::from_str("1.0.0")
    }

    pub fn admin(&self) -> (r: Option<AccountId>)
        ensures
            r == self@.admin,
    {
        self.admin
    }

    /// The token contract that pays LRN rewards.
    pub fn learn_token(&self) -> (r: AccountId)
        ensures
            r == self@.learn_token,
    {
        self.learn_token
    }

    pub fn is_paused(&self) -> (r: bool)
        ensures
            r == self@.paused,
    {
        self.paused
    }

    pub fn pause(&mut self, caller: AccountId) -> (r: Result<(), Error>)
        ensures
            outcome(old(self)@.set_paused(caller, true), old(self)@, final(self)@, r),
    {
        self.admin_check(caller)?;
        self.paused = true;
        assert(self@ =~= old(self)@.set_paused(caller, true).unwrap());
        Ok(())
    }

    pub fn unpause(&mut self, caller: AccountId) -> (r: Result<(), Error>)
        ensures
            outcome(old(self)@.set_paused(caller, false), old(self)@, final(self)@, r),
    {
        self.admin_check(caller)?;
        self.paused = false;
        assert(self@ =~= old(self)@.set_paused(caller, false).unwrap());
        Ok(())
    }

    pub fn add_course(&mut self, caller: AccountId, course_id: String, milestone_count: u32) -> (r:
        Result<(), Error>)
        ensures
            outcome(
                old(self)@.add_course(caller, course_id@, milestone_count),
                old(self)@,
                final(self)@,
                r,
            ),
    {
        self.admin_check(caller)?;
        if milestone_count == 0 {
            return Err(Error::InvalidMilestoneCount);
        }
        if self.courses.contains_key(&course_id) {
            return Err(Error::CourseAlreadyExists);
        }
        let ghost id = course_id@;
        proof {
            self.courses.lemma_dom();
        }
        self.courses.insert(course_id, CourseConfig { milestone_count, active: true });
        assert(self@ =~= old(self)@.add_course(caller, id, milestone_count).unwrap());
        Ok(())
    }

    pub fn remove_course(&mut self, caller: AccountId, course_id: String) -> (r: Result<(), Error>)
        ensures
            outcome(old(self)@.remove_course(caller, course_id@), old(self)@, final(self)@, r),
    {
        self.admin_check(caller)?;
        let config = match self.courses.get(&course_id) {
            Some(c) => *c,
            None => {
                return Err(Error::CourseNotFound);
            },
        };
        let ghost id = course_id@;
        proof {
            self.courses.lemma_dom();
        }
        self.courses.insert(course_id, CourseConfig { active: false, ..config });
        assert(self@ =~= old(self)@.remove_course(caller, id).unwrap());
        Ok(())
    }

    pub fn get_course(&self, course_id: String) -> (r: Option<CourseConfig>)
        ensures
            r == self@.course(course_id@),
    {
        match self.courses.get(&course_id) {
            Some(c) => Some(*c),
            None => None,
        }
    }

    /// The courses that have not been removed, in the order they were added.
    pub fn list_courses(&self) -> (r: Vec<String>)
        ensures
            string_views(r@) == self@.active_courses(),
    {
        let ghost keys = self.courses.keys();
        let ghost pred = self@.active_filter();
        let n = self.courses.len();
        let mut out: Vec<String> = Vec::new();
        let mut i: usize = 0;
        while i < n
            invariant
                n == keys.len(),
                keys == self.courses.keys(),
                pred == self@.active_filter(),
                i <= n,
                string_views(out@) == keys.take(i as int).filter(pred),
            decreases n - i,
        {
            let config = self.courses.value_at(i);
            let ghost before = out@;
            proof {
                assert(keys.take(i + 1) =~= keys.take(i as int).push(keys[i as int]));
                keys.take(i as int).lemma_filter_push(keys[i as int], pred);
            }
            if config.active {
                let id = self.courses.key_at(i).clone();
                out.push(id);
                assert(string_views(out@) =~= string_views(before).push(keys[i as int]));
            }
            i += 1;
        }
        assert(keys.take(n as int) =~= keys);
        out
    }

    pub fn enroll(&mut self, learner: AccountId, course_id: String) -> (r: Result<(), Error>)
        ensures
            outcome(old(self)@.enroll(learner, course_id@), old(self)@, final(self)@, r),
    {
        if self.paused {
            return Err(Error::ContractPaused);
        }
        match self.courses.get(&course_id) {
            Some(c) => {
                if !c.active {
                    return Err(Error::CourseNotFound);
                }
            },
            None => {
                return Err(Error::CourseNotFound);
            },
        }
        if self.enrolled(learner, &course_id) {
            return Err(Error::AlreadyEnrolled);
        }
        let ghost id = course_id@;
        proof {
            self.enrollments.lemma_dom();
        }
        self.enrollments.insert((learner, course_id), ());
        assert(self@ =~= old(self)@.enroll(learner, id).unwrap());
        Ok(())
    }

    pub fn is_enrolled(&self, learner: AccountId, course_id: String) -> (r: bool)
        ensures
            r == self@.is_enrolled(learner, course_id@),
    {
        self.enrolled(learner, &course_id)
    }

    /// The courses `learner` enrolled in, in the order of enrollment.
    pub fn get_enrolled_courses(&self, learner: AccountId) -> (r: Vec<String>)
        ensures
            string_views(r@) == self@.enrolled_courses(learner),
    {
        let ghost keys = self.enrollments.keys();
        let n = self.enrollments.len();
        let mut out: Vec<String> = Vec::new();
        let mut i: usize = 0;
        while i < n
            invariant
                n == keys.len(),
                keys == self.enrollments.keys(),
                i <= n,
                string_views(out@) == courses_of(learner, keys.take(i as int)),
            decreases n - i,
        {
            let key = self.enrollments.key_at(i);
            let ghost before = out@;
            let ghost e = keys[i as int];
            proof {
                assert(keys.take(i + 1).drop_last() =~= keys.take(i as int));
            }
            if key.0 == learner {
                out.push(key.1.clone());
                assert(string_views(out@) =~= string_views(before).push(e.1));
            }
            i += 1;
        }
        assert(keys.take(n as int) =~= keys);
        out
    }

    pub fn submit_milestone(
        &mut self,
        learner: AccountId,
        course_id: String,
        milestone_id: u32,
        evidence_uri: String,
    ) -> (r: Result<(), Error>)
        ensures
            outcome(
                old(self)@.submit_milestone(learner, course_id@, milestone_id, evidence_uri@),
                old(self)@,
                final(self)@,
                r,
            ),
    {
        if self.paused {
            return Err(Error::ContractPaused);
        }
        let config = match self.courses.get(&course_id) {
            Some(c) => *c,
            None => {
                return Err(Error::CourseNotFound);
            },
        };
        if !config.active {
            return Err(Error::CourseNotFound);
        }
        if !self.enrolled(learner, &course_id) {
            return Err(Error::NotEnrolled);
        }
        if milestone_id == 0 || milestone_id > config.milestone_count {
            return Err(Error::InvalidMilestone);
        }
        let ghost id = course_id@;
        let ghost uri = evidence_uri@;
        let key = (learner, course_id, milestone_id);
        let status = self.status_of(&key);
        if status == MilestoneStatus::Pending || status == MilestoneStatus::Approved {
            return Err(Error::DuplicateSubmission);
        }
        let key2 = key.copy_key();
        self.statuses.insert(key, MilestoneStatus::Pending);
        self.submissions.insert(key2, evidence_uri);
        assert(self@ =~= old(self)@.submit_milestone(learner, id, milestone_id, uri).unwrap());
        Ok(())
    }

    pub fn get_milestone_state(&self, learner: AccountId, course_id: String, milestone_id: u32) -> (r:
        MilestoneStatus)
        ensures
            r == self@.status(learner, course_id@, milestone_id),
    {
        self.status_of(&(learner, course_id, milestone_id))
    }

    pub fn get_milestone_status(&self, learner: AccountId, course_id: String, milestone_id: u32) -> (r:
        MilestoneStatus)
        ensures
            r == self@.status(learner, course_id@, milestone_id),
    {
        self.status_of(&(learner, course_id, milestone_id))
    }

    pub fn get_milestone_submission(
        &self,
        learner: AccountId,
        course_id: String,
        milestone_id: u32,
    ) -> (r: Option<MilestoneSubmission>)
        ensures
            match self@.submission(learner, course_id@, milestone_id) {
                Some(uri) => r matches Some(s) && s.evidence_uri@ == uri,
                None => r is None,
            },
    {
        match self.submissions.get(&(learner, course_id, milestone_id)) {
            Some(uri) => Some(MilestoneSubmission { evidence_uri: uri.clone() }),
            None => None,
        }
    }

    pub fn is_completed(&self, learner: AccountId, course_id: String, milestone_id: u32) -> (r: bool)
        ensures
            r == self@.is_completed(learner, course_id@, milestone_id),
    {
        self.completed.contains_key(&(learner, course_id, milestone_id))
    }

    /// Approves a pending submission and returns the LRN to mint to the
    /// learner.
    pub fn verify_milestone(
        &mut self,
        caller: AccountId,
        learner: AccountId,
        course_id: String,
        milestone_id: u32,
        lrn_amount: i128,
    ) -> (r: Result<i128, Error>)
        ensures
            outcome_with(
                old(self)@.verify_milestone(caller, learner, course_id@, milestone_id, lrn_amount),
                old(self)@,
                final(self)@,
                r,
            ),
    {
        if self.paused {
            return Err(Error::ContractPaused);
        }
        self.admin_check(caller)?;
        if lrn_amount < 0 {
            return Err(Error::InvalidAmount);
        }
        let ghost id = course_id@;
        let key = (learner, course_id, milestone_id);
        if self.status_of(&key) != MilestoneStatus::Pending {
            return Err(Error::InvalidState);
        }
        let key2 = key.copy_key();
        self.statuses.insert(key, MilestoneStatus::Approved);
        self.completed.insert(key2, ());
        assert(self@ =~= old(self)@.verify_milestone(
            caller,
            learner,
            id,
            milestone_id,
            lrn_amount,
        ).unwrap().0);
        Ok(lrn_amount)
    }

    pub fn reject_milestone(
        &mut self,
        caller: AccountId,
        learner: AccountId,
        course_id: String,
        milestone_id: u32,
    ) -> (r: Result<(), Error>)
        ensures
            outcome(
                old(self)@.reject_milestone(caller, learner, course_id@, milestone_id),
                old(self)@,
                final(self)@,
                r,
            ),
    {
        if self.paused {
            return Err(Error::ContractPaused);
        }
        self.admin_check(caller)?;
        let ghost id = course_id@;
        let key = (learner, course_id, milestone_id);
        if self.status_of(&key) != MilestoneStatus::Pending {
            return Err(Error::InvalidState);
        }
        self.submissions.remove(&key);
        self.statuses.insert(key, MilestoneStatus::Rejected);
        assert(self@ =~= old(self)@.reject_milestone(caller, learner, id, milestone_id).unwrap());
        Ok(())
    }

    pub fn set_milestone_reward(
        &mut self,
        caller: AccountId,
        course_id: String,
        milestone_id: u32,
        amount: i128,
    ) -> (r: Result<(), Error>)
        ensures
            outcome(
                old(self)@.set_milestone_reward(caller, course_id@, milestone_id, amount),
                old(self)@,
                final(self)@,
                r,
            ),
    {
        self.admin_check(caller)?;
        let config = match self.courses.get(&course_id) {
            Some(c) => *c,
            None => {
                return Err(Error::CourseNotFound);
            },
        };
        if milestone_id == 0 || milestone_id > config.milestone_count {
            return Err(Error::InvalidMilestone);
        }
        if amount < 0 {
            return Err(Error::InvalidAmount);
        }
        let ghost id = course_id@;
        self.rewards.insert((course_id, milestone_id), amount);
        assert(self@ =~= old(self)@.set_milestone_reward(caller, id, milestone_id, amount).unwrap());
        Ok(())
    }

    pub fn get_milestone_reward(&self, course_id: String, milestone_id: u32) -> (r: i128)
        ensures
            r == self@.reward(course_id@, milestone_id),
    {
        match self.rewards.get(&(course_id, milestone_id)) {
            Some(a) => *a,
            None => 0,
        }
    }

    /// Marks the milestone complete and returns the completion to announce,
    /// carrying the LRN reward to mint to the learner.
    pub fn complete_milestone(
        &mut self,
        caller: AccountId,
        learner: AccountId,
        course_id: String,
        milestone_id: u32,
    ) -> (r: Result<MilestoneCompleted, Error>)
        ensures
            match old(self)@.complete_milestone(caller, learner, course_id@, milestone_id) {
                Ok((next, reward)) => {
                    &&& final(self)@ == next
                    &&& r matches Ok(ev)
                    &&& ev.learner == learner
                    &&& ev.course_id@ == course_id@
                    &&& ev.milestone_id == milestone_id
                    &&& ev.lrn_reward == reward
                },
                Err(e) => final(self)@ == old(self)@ && (r matches Err(x) && x == e),
            },
    {
        if self.paused {
            return Err(Error::ContractPaused);
        }
        self.admin_check(caller)?;
        let config = match self.courses.get(&course_id) {
            Some(c) => *c,
            None => {
                return Err(Error::CourseNotFound);
            },
        };
        if !self.enrolled(learner, &course_id) {
            return Err(Error::NotEnrolled);
        }
        if milestone_id == 0 || milestone_id > config.milestone_count {
            return Err(Error::InvalidMilestone);
        }
        let ghost id = course_id@;
        let key = (learner, course_id.clone(), milestone_id);
        if self.completed.contains_key(&key) {
            return Err(Error::AlreadyCompleted);
        }
        let lrn_reward = self.get_milestone_reward(course_id.clone(), milestone_id);
        let key2 = key.copy_key();
        self.statuses.insert(key, MilestoneStatus::Approved);
        self.completed.insert(key2, ());
        assert(self@ =~= old(self)@.complete_milestone(caller, learner, id, milestone_id).unwrap().0);
        Ok(MilestoneCompleted { learner, course_id, milestone_id, lrn_reward })
    }
}


proof fn lemma_filter_congruent(
    s: Seq<Seq<char>>,
    p: spec_fn(Seq<char>) -> bool,
    q: spec_fn(Seq<char>) -> bool,
)
    requires
        forall|i: int| 0 <= i < s.len() ==> p(#[trigger] s[i]) == q(s[i]),
    ensures
        s.filter(p) == s.filter(q),
    decreases s.len(),
{
    reveal(Seq::filter);
    if s.len() > 0 {
        let d = s.drop_last();
        assert forall|i: int| 0 <= i < d.len() implies p(#[trigger] d[i]) == q(d[i]) by {
            assert(d[i] == s[i]);
        }
        lemma_filter_congruent(d, p, q);
    }
}

proof fn lemma_courses_of_push(
    learner: AccountId,
    es: Seq<(AccountId, Seq<char>)>,
    e: (AccountId, Seq<char>),
)
    ensures
        courses_of(learner, es.push(e)) == if e.0 == learner {
            courses_of(learner, es).push(e.1)
        } else {
            courses_of(learner, es)
        },
{
    assert(es.push(e).drop_last() =~= es);
}

/// An added course can be read back open, with its milestone count, and is
/// listed after the courses already listed; its id cannot be added again.
pub proof fn law_add_course_then_read(
    s: CourseMilestoneModel,
    caller: AccountId,
    course_id: Seq<char>,
    milestone_count: u32,
    again: u32,
)
    requires
        s.wf(),
        s.add_course(caller, course_id, milestone_count) is Ok,
    ensures
        ({
            let t = s.add_course(caller, course_id, milestone_count).unwrap();
            &&& t.wf()
            &&& t.course(course_id) == Some(CourseConfig { milestone_count, active: true })
            &&& t.is_open(course_id)
            &&& t.active_courses() == s.active_courses().push(course_id)
            &&& again > 0 ==> t.add_course(caller, course_id, again) == Err::<
                CourseMilestoneModel,
                Error,
            >(Error::CourseAlreadyExists)
        }),
{
    let t = s.add_course(caller, course_id, milestone_count).unwrap();
    assert forall|id: Seq<char>| #[trigger]
        t.courses.contains_key(id) <==> t.course_order.contains(id) by {
        if id != course_id {
            if s.course_order.contains(id) {
                let j = choose|j: int| 0 <= j < s.course_order.len() && s.course_order[j] == id;
                assert(t.course_order[j] == id);
            }
            if t.course_order.contains(id) {
                let j = choose|j: int| 0 <= j < t.course_order.len() && t.course_order[j] == id;
                assert(j < s.course_order.len());
                assert(s.course_order[j] == id);
            }
        } else {
            assert(t.course_order[s.course_order.len() as int] == id);
        }
    }
    s.course_order.lemma_filter_push(course_id, t.active_filter());
    assert forall|i: int| 0 <= i < s.course_order.len() implies (t.active_filter())(
        #[trigger] s.course_order[i],
    ) == (s.active_filter())(s.course_order[i]) by {
        assert(s.course_order.contains(s.course_order[i]));
    }
    lemma_filter_congruent(s.course_order, t.active_filter(), s.active_filter());
}

/// A removed course keeps its record but is closed: it is no longer listed
/// and nobody can enroll in it.
pub proof fn law_remove_course_closes(
    s: CourseMilestoneModel,
    caller: AccountId,
    course_id: Seq<char>,
    learner: AccountId,
)
    requires
        s.remove_course(caller, course_id) is Ok,
    ensures
        ({
            let t = s.remove_course(caller, course_id).unwrap();
            &&& t.course(course_id) == Some(
                CourseConfig { active: false, ..s.courses[course_id] },
            )
            &&& !t.active_courses().contains(course_id)
            &&& !t.paused ==> t.enroll(learner, course_id) == Err::<CourseMilestoneModel, Error>(
                Error::CourseNotFound,
            )
        }),
{
    broadcast use vstd::seq_lib::group_filter_ensures;

    let t = s.remove_course(caller, course_id).unwrap();
    if t.active_courses().contains(course_id) {
        let j = choose|j: int|
            0 <= j < t.active_courses().len() && t.active_courses()[j] == course_id;
        assert((t.active_filter())(t.active_courses()[j]));
    }
}

/// After enrolling, the learner is enrolled, cannot enroll again, and the
/// course is appended to that learner's list and no one else's.
pub proof fn law_enroll_then_read(
    s: CourseMilestoneModel,
    learner: AccountId,
    course_id: Seq<char>,
    other: AccountId,
)
    requires
        s.enroll(learner, course_id) is Ok,
    ensures
        ({
            let t = s.enroll(learner, course_id).unwrap();
            &&& t.is_enrolled(learner, course_id)
            &&& t.enroll(learner, course_id) == Err::<CourseMilestoneModel, Error>(
                Error::AlreadyEnrolled,
            )
            &&& t.enrolled_courses(learner) == s.enrolled_courses(learner).push(course_id)
            &&& other != learner ==> t.enrolled_courses(other) == s.enrolled_courses(other)
        }),
{
    let t = s.enroll(learner, course_id).unwrap();
    assert(t.enrollments[s.enrollments.len() as int] == (learner, course_id));
    lemma_courses_of_push(learner, s.enrollments, (learner, course_id));
    lemma_courses_of_push(other, s.enrollments, (learner, course_id));
}

/// A submission is pending with its evidence kept, and cannot be submitted
/// again while it waits.
pub proof fn law_submit_then_read(
    s: CourseMilestoneModel,
    learner: AccountId,
    course_id: Seq<char>,
    milestone_id: u32,
    evidence_uri: Seq<char>,
    other_uri: Seq<char>,
)
    requires
        s.submit_milestone(learner, course_id, milestone_id, evidence_uri) is Ok,
    ensures
        ({
            let t = s.submit_milestone(learner, course_id, milestone_id, evidence_uri).unwrap();
            &&& t.status(learner, course_id, milestone_id) == MilestoneStatus::Pending
            &&& t.submission(learner, course_id, milestone_id) == Some(evidence_uri)
            &&& t.submit_milestone(learner, course_id, milestone_id, other_uri) == Err::<
                CourseMilestoneModel,
                Error,
            >(Error::DuplicateSubmission)
        }),
{
}

/// Approving a submission completes the milestone and owes the learner the
/// amount given; it cannot be approved twice.
pub proof fn law_verify_then_read(
    s: CourseMilestoneModel,
    caller: AccountId,
    learner: AccountId,
    course_id: Seq<char>,
    milestone_id: u32,
    lrn_amount: i128,
)
    requires
        s.verify_milestone(caller, learner, course_id, milestone_id, lrn_amount) is Ok,
    ensures
        ({
            let (t, owed) = s.verify_milestone(
                caller,
                learner,
                course_id,
                milestone_id,
                lrn_amount,
            ).unwrap();
            &&& owed == lrn_amount
            &&& t.status(learner, course_id, milestone_id) == MilestoneStatus::Approved
            &&& t.is_completed(learner, course_id, milestone_id)
            &&& t.verify_milestone(caller, learner, course_id, milestone_id, lrn_amount) == Err::<
                (CourseMilestoneModel, i128),
                Error,
            >(Error::InvalidState)
        }),
{
}

/// A rejection discards the evidence and leaves the milestone open to a new
/// submission while the learner may still submit to the course.
pub proof fn law_reject_then_read(
    s: CourseMilestoneModel,
    caller: AccountId,
    learner: AccountId,
    course_id: Seq<char>,
    milestone_id: u32,
    new_uri: Seq<char>,
)
    requires
        s.reject_milestone(caller, learner, course_id, milestone_id) is Ok,
    ensures
        ({
            let t = s.reject_milestone(caller, learner, course_id, milestone_id).unwrap();
            &&& t.status(learner, course_id, milestone_id) == MilestoneStatus::Rejected
            &&& t.submission(learner, course_id, milestone_id) is None
            &&& t.is_open(course_id) && t.is_enrolled(learner, course_id)
                && t.is_valid_milestone(course_id, milestone_id) ==> t.submit_milestone(
                learner,
                course_id,
                milestone_id,
                new_uri,
            ) is Ok
        }),
{
}

/// Completing a milestone pays the reward configured for it; a completed
/// milestone cannot be completed again.
pub proof fn law_reward_then_complete(
    s: CourseMilestoneModel,
    caller: AccountId,
    learner: AccountId,
    course_id: Seq<char>,
    milestone_id: u32,
    amount: i128,
)
    requires
        s.set_milestone_reward(caller, course_id, milestone_id, amount) is Ok,
        s.set_milestone_reward(caller, course_id, milestone_id, amount).unwrap().complete_milestone(
            caller,
            learner,
            course_id,
            milestone_id,
        ) is Ok,
    ensures
        ({
            let t = s.set_milestone_reward(caller, course_id, milestone_id, amount).unwrap();
            let (u, reward) = t.complete_milestone(caller, learner, course_id, milestone_id).unwrap();
            &&& reward == amount
            &&& u.is_completed(learner, course_id, milestone_id)
            &&& u.status(learner, course_id, milestone_id) == MilestoneStatus::Approved
            &&& u.complete_milestone(caller, learner, course_id, milestone_id) == Err::<
                (CourseMilestoneModel, i128),
                Error,
            >(Error::AlreadyCompleted)
        }),
{
}

/// The admin cannot complete a milestone for a learner who is not enrolled.
pub proof fn law_complete_needs_enrollment(
    s: CourseMilestoneModel,
    learner: AccountId,
    course_id: Seq<char>,
    milestone_id: u32,
)
    requires
        s.admin is Some,
        !s.paused,
        s.courses.contains_key(course_id),
        !s.is_enrolled(learner, course_id),
    ensures
        s.complete_milestone(s.admin.unwrap(), learner, course_id, milestone_id) == Err::<
            (CourseMilestoneModel, i128),
            Error,
        >(Error::NotEnrolled),
{
}

/// Only the admin manages courses, rewards, the pause switch and reviews;
/// anyone else is refused with `Unauthorized`.
pub proof fn law_only_admin(
    s: CourseMilestoneModel,
    caller: AccountId,
    learner: AccountId,
    course_id: Seq<char>,
    milestone_id: u32,
    count: u32,
    amount: i128,
    paused: bool,
)
    requires
        s.admin matches Some(a) && a != caller,
    ensures
        s.add_course(caller, course_id, count) == Err::<CourseMilestoneModel, Error>(
            Error::Unauthorized,
        ),
        s.remove_course(caller, course_id) == Err::<CourseMilestoneModel, Error>(
            Error::Unauthorized,
        ),
        s.set_milestone_reward(caller, course_id, milestone_id, amount) == Err::<
            CourseMilestoneModel,
            Error,
        >(Error::Unauthorized),
        s.set_paused(caller, paused) == Err::<CourseMilestoneModel, Error>(Error::Unauthorized),
        !s.paused ==> s.verify_milestone(caller, learner, course_id, milestone_id, amount)
            == Err::<(CourseMilestoneModel, i128), Error>(Error::Unauthorized),
        !s.paused ==> s.reject_milestone(caller, learner, course_id, milestone_id) == Err::<
            CourseMilestoneModel,
            Error,
        >(Error::Unauthorized),
        !s.paused ==> s.complete_milestone(caller, learner, course_id, milestone_id) == Err::<
            (CourseMilestoneModel, i128),
            Error,
        >(Error::Unauthorized),
{
}

/// While paused, no enrollment, submission, review or completion goes
/// through.
pub proof fn law_pause_blocks_progress(
    s: CourseMilestoneModel,
    caller: AccountId,
    learner: AccountId,
    course_id: Seq<char>,
    milestone_id: u32,
    evidence_uri: Seq<char>,
    amount: i128,
)
    requires
        s.paused,
    ensures
        s.enroll(learner, course_id) == Err::<CourseMilestoneModel, Error>(Error::ContractPaused),
        s.submit_milestone(learner, course_id, milestone_id, evidence_uri) == Err::<
            CourseMilestoneModel,
            Error,
        >(Error::ContractPaused),
        s.verify_milestone(caller, learner, course_id, milestone_id, amount) == Err::<
            (CourseMilestoneModel, i128),
            Error,
        >(Error::ContractPaused),
        s.reject_milestone(caller, learner, course_id, milestone_id) == Err::<
            CourseMilestoneModel,
            Error,
        >(Error::ContractPaused),
        s.complete_milestone(caller, learner, course_id, milestone_id) == Err::<
            (CourseMilestoneModel, i128),
            Error,
        >(Error::ContractPaused),
{
}

/// Approval and completion are final: once a milestone is approved, or
/// completed, no submission, review or completion of any milestone undoes it.
pub proof fn law_approval_is_final(
    s: CourseMilestoneModel,
    caller: AccountId,
    learner: AccountId,
    course_id: Seq<char>,
    milestone_id: u32,
    evidence_uri: Seq<char>,
    amount: i128,
    l: AccountId,
    c: Seq<char>,
    m: u32,
)
    ensures
        s.status(l, c, m) == MilestoneStatus::Approved ==> {
            &&& s.submit_milestone(learner, course_id, milestone_id, evidence_uri) matches Ok(t)
                ==> t.status(l, c, m) == MilestoneStatus::Approved
            &&& s.verify_milestone(caller, learner, course_id, milestone_id, amount) matches Ok(
                (t, _),
            ) ==> t.status(l, c, m) == MilestoneStatus::Approved
            &&& s.reject_milestone(caller, learner, course_id, milestone_id) matches Ok(t)
                ==> t.status(l, c, m) == MilestoneStatus::Approved
            &&& s.complete_milestone(caller, learner, course_id, milestone_id) matches Ok((t, _))
                ==> t.status(l, c, m) == MilestoneStatus::Approved
        },
        s.is_completed(l, c, m) ==> {
            &&& s.submit_milestone(learner, course_id, milestone_id, evidence_uri) matches Ok(t)
                ==> t.is_completed(l, c, m)
            &&& s.verify_milestone(caller, learner, course_id, milestone_id, amount) matches Ok(
                (t, _),
            ) ==> t.is_completed(l, c, m)
            &&& s.reject_milestone(caller, learner, course_id, milestone_id) matches Ok(t)
                ==> t.is_completed(l, c, m)
            &&& s.complete_milestone(caller, learner, course_id, milestone_id) matches Ok((t, _))
                ==> t.is_completed(l, c, m)
        },
{
}


/// Adding a course succeeds exactly when the admin adds an id not yet present
/// with at least one milestone, whatever the count; the course then reads back
/// open with that count, and no other course changes.
pub proof fn law_add_course_succeeds(
    s: CourseMilestoneModel,
    caller: AccountId,
    course_id: Seq<char>,
    milestone_count: u32,
    other: Seq<char>,
)
    ensures
        s.add_course(caller, course_id, milestone_count) is Ok <==> (s.admin == Some(caller)
            && milestone_count > 0 && !s.courses.contains_key(course_id)),
        s.add_course(caller, course_id, milestone_count) matches Ok(t) ==> {
            &&& t.course(course_id) == Some(CourseConfig { milestone_count, active: true })
            &&& other != course_id ==> t.course(other) == s.course(other)
        },
{
}

/// Removing a course succeeds exactly when the admin names a stored course, and
/// no other course changes.
pub proof fn law_remove_course_succeeds(
    s: CourseMilestoneModel,
    caller: AccountId,
    course_id: Seq<char>,
    other: Seq<char>,
)
    ensures
        s.remove_course(caller, course_id) is Ok <==> (s.admin == Some(caller)
            && s.courses.contains_key(course_id)),
        s.remove_course(caller, course_id) matches Ok(t) ==> {
            &&& t.course(course_id) matches Some(c) && !c.active
            &&& other != course_id ==> t.course(other) == s.course(other)
        },
{
}

/// Enrolling succeeds exactly when the contract is running, the course is
/// open and the learner is not yet enrolled in it.
pub proof fn law_enroll_succeeds(s: CourseMilestoneModel, learner: AccountId, course_id: Seq<char>)
    ensures
        s.enroll(learner, course_id) is Ok <==> (!s.paused && s.courses.contains_key(course_id)
            && s.courses[course_id].active && !s.enrollments.contains((learner, course_id))),
{
}

/// A submission is accepted exactly when the contract is running, the course
/// is open, the learner is enrolled, the milestone is one of the course's and
/// it is neither waiting for review nor approved.
pub proof fn law_submit_succeeds(
    s: CourseMilestoneModel,
    learner: AccountId,
    course_id: Seq<char>,
    milestone_id: u32,
    evidence_uri: Seq<char>,
)
    ensures
        s.submit_milestone(learner, course_id, milestone_id, evidence_uri) is Ok <==> {
            &&& !s.paused
            &&& s.courses.contains_key(course_id)
            &&& s.courses[course_id].active
            &&& s.enrollments.contains((learner, course_id))
            &&& 1 <= milestone_id <= s.courses[course_id].milestone_count
            &&& (s.status(learner, course_id, milestone_id) == MilestoneStatus::NotStarted
                || s.status(learner, course_id, milestone_id) == MilestoneStatus::Rejected)
        },
{
}

/// Only a milestone waiting for review can be approved or rejected: a
/// milestone never submitted, already rejected or already approved is refused
/// with `InvalidState` by the admin of a running contract, and a pending one is
/// accepted.
pub proof fn law_review_needs_pending(
    s: CourseMilestoneModel,
    caller: AccountId,
    learner: AccountId,
    course_id: Seq<char>,
    milestone_id: u32,
    lrn_amount: i128,
)
    ensures
        s.verify_milestone(caller, learner, course_id, milestone_id, lrn_amount) is Ok
            ==> s.status(learner, course_id, milestone_id) == MilestoneStatus::Pending,
        s.reject_milestone(caller, learner, course_id, milestone_id) is Ok ==> s.status(
            learner,
            course_id,
            milestone_id,
        ) == MilestoneStatus::Pending,
        !s.paused && s.admin == Some(caller) && s.status(learner, course_id, milestone_id)
            != MilestoneStatus::Pending ==> {
            &&& lrn_amount >= 0 ==> s.verify_milestone(
                caller,
                learner,
                course_id,
                milestone_id,
                lrn_amount,
            ) == Err::<(CourseMilestoneModel, i128), Error>(Error::InvalidState)
            &&& s.reject_milestone(caller, learner, course_id, milestone_id) == Err::<
                CourseMilestoneModel,
                Error,
            >(Error::InvalidState)
        },
        !s.paused && s.admin == Some(caller) && s.status(learner, course_id, milestone_id)
            == MilestoneStatus::Pending ==> {
            &&& lrn_amount >= 0 ==> s.verify_milestone(
                caller,
                learner,
                course_id,
                milestone_id,
                lrn_amount,
            ) is Ok
            &&& s.reject_milestone(caller, learner, course_id, milestone_id) is Ok
        },
{
}

/// Every call keeps evidence on file for every milestone waiting for review,
/// and a contract with no milestones recorded has nothing waiting.
pub proof fn law_pending_has_evidence_kept(
    s: CourseMilestoneModel,
    caller: AccountId,
    learner: AccountId,
    course_id: Seq<char>,
    milestone_id: u32,
    evidence_uri: Seq<char>,
    amount: i128,
    count: u32,
    flag: bool,
    admin: AccountId,
    token: AccountId,
)
    requires
        s.pending_has_evidence(),
    ensures
        s.initialize(admin, token) matches Ok(t) ==> t.pending_has_evidence(),
        s.add_course(caller, course_id, count) matches Ok(t) ==> t.pending_has_evidence(),
        s.remove_course(caller, course_id) matches Ok(t) ==> t.pending_has_evidence(),
        s.enroll(learner, course_id) matches Ok(t) ==> t.pending_has_evidence(),
        s.submit_milestone(learner, course_id, milestone_id, evidence_uri) matches Ok(t)
            ==> t.pending_has_evidence(),
        s.verify_milestone(caller, learner, course_id, milestone_id, amount) matches Ok((t, _))
            ==> t.pending_has_evidence(),
        s.reject_milestone(caller, learner, course_id, milestone_id) matches Ok(t)
            ==> t.pending_has_evidence(),
        s.set_milestone_reward(caller, course_id, milestone_id, amount) matches Ok(t)
            ==> t.pending_has_evidence(),
        s.complete_milestone(caller, learner, course_id, milestone_id) matches Ok((t, _))
            ==> t.pending_has_evidence(),
        s.set_paused(caller, flag) matches Ok(t) ==> t.pending_has_evidence(),
{
    let k = (learner, course_id, milestone_id);
    if let Ok(t) = s.submit_milestone(learner, course_id, milestone_id, evidence_uri) {
        assert forall|j: (AccountId, Seq<char>, u32)| #[trigger]
            t.statuses.contains_key(j) && t.statuses[j] == MilestoneStatus::Pending
            implies t.submissions.contains_key(j) by {
            if j != k {
                assert(s.statuses.contains_key(j) && s.statuses[j] == MilestoneStatus::Pending);
            }
        }
    }
    if let Ok((t, _)) = s.verify_milestone(caller, learner, course_id, milestone_id, amount) {
        assert forall|j: (AccountId, Seq<char>, u32)| #[trigger]
            t.statuses.contains_key(j) && t.statuses[j] == MilestoneStatus::Pending
            implies t.submissions.contains_key(j) by {
            assert(j != k);
            assert(s.statuses.contains_key(j) && s.statuses[j] == MilestoneStatus::Pending);
        }
    }
    if let Ok(t) = s.reject_milestone(caller, learner, course_id, milestone_id) {
        assert forall|j: (AccountId, Seq<char>, u32)| #[trigger]
            t.statuses.contains_key(j) && t.statuses[j] == MilestoneStatus::Pending
            implies t.submissions.contains_key(j) by {
            assert(j != k);
            assert(s.statuses.contains_key(j) && s.statuses[j] == MilestoneStatus::Pending);
        }
    }
    if let Ok((t, _)) = s.complete_milestone(caller, learner, course_id, milestone_id) {
        assert forall|j: (AccountId, Seq<char>, u32)| #[trigger]
            t.statuses.contains_key(j) && t.statuses[j] == MilestoneStatus::Pending
            implies t.submissions.contains_key(j) by {
            assert(j != k);
            assert(s.statuses.contains_key(j) && s.statuses[j] == MilestoneStatus::Pending);
        }
    }
}

/// A contract with no milestone statuses has nothing waiting for review.
pub proof fn law_fresh_contract_has_evidence(s: CourseMilestoneModel)
    requires
        s.statuses == Map::<(AccountId, Seq<char>, u32), MilestoneStatus>::empty(),
    ensures
        s.pending_has_evidence(),
{
}

/// Where evidence is kept for every pending milestone, a milestone can be
/// approved or rejected only if evidence was submitted for it.
pub proof fn law_review_needs_submission(
    s: CourseMilestoneModel,
    caller: AccountId,
    learner: AccountId,
    course_id: Seq<char>,
    milestone_id: u32,
    lrn_amount: i128,
)
    requires
        s.pending_has_evidence(),
    ensures
        s.verify_milestone(caller, learner, course_id, milestone_id, lrn_amount) is Ok
            ==> s.submission(learner, course_id, milestone_id) is Some,
        s.reject_milestone(caller, learner, course_id, milestone_id) is Ok ==> s.submission(
            learner,
            course_id,
            milestone_id,
        ) is Some,
{
    let k = (learner, course_id, milestone_id);
    if s.verify_milestone(caller, learner, course_id, milestone_id, lrn_amount) is Ok
        || s.reject_milestone(caller, learner, course_id, milestone_id) is Ok {
        assert(s.statuses.contains_key(k) && s.statuses[k] == MilestoneStatus::Pending);
    }
}

/// Approving owes the learner exactly the amount the admin gives, and marks
/// that milestone approved and complete.
pub proof fn law_verify_succeeds(
    s: CourseMilestoneModel,
    caller: AccountId,
    learner: AccountId,
    course_id: Seq<char>,
    milestone_id: u32,
    lrn_amount: i128,
)
    ensures
        s.verify_milestone(caller, learner, course_id, milestone_id, lrn_amount) is Ok <==> {
            &&& !s.paused
            &&& s.admin == Some(caller)
            &&& lrn_amount >= 0
            &&& s.status(learner, course_id, milestone_id) == MilestoneStatus::Pending
        },
        s.verify_milestone(caller, learner, course_id, milestone_id, lrn_amount) matches Ok(
            (t, owed),
        ) ==> owed == lrn_amount && t.status(learner, course_id, milestone_id)
            == MilestoneStatus::Approved && t.is_completed(learner, course_id, milestone_id),
{
}

/// A review, submission or completion of one milestone changes nothing that
/// can be read of any other learner's or course's or milestone's progress.
pub proof fn law_milestone_calls_are_local(
    s: CourseMilestoneModel,
    caller: AccountId,
    learner: AccountId,
    course_id: Seq<char>,
    milestone_id: u32,
    evidence_uri: Seq<char>,
    amount: i128,
    l: AccountId,
    c: Seq<char>,
    m: u32,
)
    requires
        (l, c, m) != (learner, course_id, milestone_id),
    ensures
        s.submit_milestone(learner, course_id, milestone_id, evidence_uri) matches Ok(t) ==> {
            &&& t.status(l, c, m) == s.status(l, c, m)
            &&& t.submission(l, c, m) == s.submission(l, c, m)
            &&& t.is_completed(l, c, m) == s.is_completed(l, c, m)
        },
        s.verify_milestone(caller, learner, course_id, milestone_id, amount) matches Ok((t, _))
            ==> {
            &&& t.status(l, c, m) == s.status(l, c, m)
            &&& t.submission(l, c, m) == s.submission(l, c, m)
            &&& t.is_completed(l, c, m) == s.is_completed(l, c, m)
        },
        s.reject_milestone(caller, learner, course_id, milestone_id) matches Ok(t) ==> {
            &&& t.status(l, c, m) == s.status(l, c, m)
            &&& t.submission(l, c, m) == s.submission(l, c, m)
            &&& t.is_completed(l, c, m) == s.is_completed(l, c, m)
        },
        s.complete_milestone(caller, learner, course_id, milestone_id) matches Ok((t, _)) ==> {
            &&& t.status(l, c, m) == s.status(l, c, m)
            &&& t.submission(l, c, m) == s.submission(l, c, m)
            &&& t.is_completed(l, c, m) == s.is_completed(l, c, m)
        },
{
}

/// Setting a reward succeeds exactly when the admin names a milestone of a
/// stored course and a non-negative amount; it then reads back, and no other
/// milestone's reward changes.
pub proof fn law_set_reward_succeeds(
    s: CourseMilestoneModel,
    caller: AccountId,
    course_id: Seq<char>,
    milestone_id: u32,
    amount: i128,
    c: Seq<char>,
    m: u32,
)
    ensures
        s.set_milestone_reward(caller, course_id, milestone_id, amount) is Ok <==> {
            &&& s.admin == Some(caller)
            &&& s.courses.contains_key(course_id)
            &&& 1 <= milestone_id <= s.courses[course_id].milestone_count
            &&& amount >= 0
        },
        s.set_milestone_reward(caller, course_id, milestone_id, amount) matches Ok(t) ==> {
            &&& t.reward(course_id, milestone_id) == amount
            &&& (c, m) != (course_id, milestone_id) ==> t.reward(c, m) == s.reward(c, m)
        },
{
}

/// Completing succeeds exactly when the admin of a running contract names a
/// milestone of a stored course for an enrolled learner that is not yet
/// complete; the learner is owed the configured reward, or nothing where none
/// was configured.
pub proof fn law_complete_succeeds(
    s: CourseMilestoneModel,
    caller: AccountId,
    learner: AccountId,
    course_id: Seq<char>,
    milestone_id: u32,
)
    ensures
        s.complete_milestone(caller, learner, course_id, milestone_id) is Ok <==> {
            &&& !s.paused
            &&& s.admin == Some(caller)
            &&& s.courses.contains_key(course_id)
            &&& s.enrollments.contains((learner, course_id))
            &&& 1 <= milestone_id <= s.courses[course_id].milestone_count
            &&& !s.completed.contains((learner, course_id, milestone_id))
        },
        s.complete_milestone(caller, learner, course_id, milestone_id) matches Ok((t, owed)) ==> {
            &&& !s.rewards.contains_key((course_id, milestone_id)) ==> owed == 0
            &&& s.rewards.contains_key((course_id, milestone_id)) ==> owed == s.rewards[(
                course_id,
                milestone_id,
            )]
            &&& t.status(learner, course_id, milestone_id) == MilestoneStatus::Approved
            &&& t.is_completed(learner, course_id, milestone_id)
        },
{
}

/// The admin can always pause or resume, and the switch then reads as set.
pub proof fn law_set_paused_succeeds(s: CourseMilestoneModel, caller: AccountId, paused: bool)
    ensures
        s.set_paused(caller, paused) is Ok <==> s.admin == Some(caller),
        s.set_paused(caller, paused) matches Ok(t) ==> t.paused == paused,
{
}

} // verus!
