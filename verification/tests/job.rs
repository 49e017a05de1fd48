use batch::job::{Error, Failure, JobDescriptor, Job, Perform, Priority, Status};

#[test]
fn priority_parses_all_levels() {
    assert_eq!(Priority::from_str("trivial"), Ok(Priority::Trivial));
    assert_eq!(Priority::from_str("low"), Ok(Priority::Low));
    assert_eq!(Priority::from_str("normal"), Ok(Priority::Normal));
    assert_eq!(Priority::from_str("high"), Ok(Priority::High));
    assert_eq!(Priority::from_str("critical"), Ok(Priority::Critical));
}

#[test]
fn priority_rejects_other_text() {
    assert_eq!(Priority::from_str(""), Err(Error::InvalidPriority));
    assert_eq!(Priority::from_str("Normal"), Err(Error::InvalidPriority));
    assert_eq!(Priority::from_str("urgent"), Err(Error::InvalidPriority));
    assert_eq!(Priority::from_str("criticall"), Err(Error::InvalidPriority));
    assert_eq!(Priority::from_str("hig"), Err(Error::InvalidPriority));
}

#[test]
fn priority_order_is_total_and_increasing() {
    let levels = [
        Priority::Trivial,
        Priority::Low,
        Priority::Normal,
        Priority::High,
        Priority::Critical,
    ];
    for (i, p) in levels.iter().enumerate() {
        assert_eq!(p.to_u8() as usize, i);
    }
    assert!(Priority::Trivial < Priority::Low);
    assert!(Priority::Low < Priority::Normal);
    assert!(Priority::Normal < Priority::High);
    assert!(Priority::High < Priority::Critical);
}

#[test]
fn priority_default_is_normal() {
    assert_eq!(Priority::default(), Priority::Normal);
}

#[test]
fn status_state_machine_moves_pending_started_terminal() {
    let pending = Status::Pending;
    let started = Status::Started;
    let success = Status::Success;
    let failed = Status::Failed(Failure::Error);

    assert!(pending.can_transition(&started));
    assert!(!pending.can_transition(&success));
    assert!(started.can_transition(&success));
    assert!(started.can_transition(&failed));
    assert!(!started.can_transition(&pending));

    assert!(!pending.is_terminal());
    assert!(!started.is_terminal());
    assert!(success.is_terminal());
    assert!(failed.is_terminal());

    assert!(!success.can_transition(&pending));
    assert!(!failed.can_transition(&started));
}

#[test]
fn timeout_failure_is_distinct_terminal_state() {
    // A handler exceeding its declared 120-unit timeout reports
    // Failed(Timeout), which is terminal and distinguishable from a
    // handler error.
    let d = JobDescriptor::new(
        "SendPasswordResetEmail".to_owned(),
        "emails".to_owned(),
        "emails.send".to_owned(),
    )
    .with_timeout(Some(120));
    assert_eq!(d.timeout(), Some(120));

    let timed_out = Status::Failed(Failure::Timeout);
    let errored = Status::Failed(Failure::Error);
    let crashed = Status::Failed(Failure::Crash);
    assert!(timed_out.is_terminal());
    assert_ne!(timed_out, errored);
    assert_ne!(timed_out, crashed);
    assert_ne!(errored, crashed);
    assert_eq!(timed_out, Status::Failed(Failure::Timeout));
}

#[test]
fn descriptor_defaults_and_overrides() {
    let d = JobDescriptor::new(
        "SendConfirmationEmail".to_owned(),
        "emails".to_owned(),
        "emails.send".to_owned(),
    );
    assert_eq!(d.name(), "SendConfirmationEmail");
    assert_eq!(d.exchange(), "emails");
    assert_eq!(d.routing_key(), "emails.send");
    assert_eq!(d.retries(), 0);
    assert_eq!(d.timeout(), None);
    assert_eq!(d.priority(), Priority::Normal);

    let d = d.with_retries(3).with_timeout(Some(120)).with_priority(Priority::High);
    assert_eq!(d.retries(), 3);
    assert_eq!(d.timeout(), Some(120));
    assert_eq!(d.priority(), Priority::High);
    assert_eq!(d.exchange(), "emails");
}

#[test]
fn descriptor_queries_are_stable() {
    let d = JobDescriptor::new(
        "SendConfirmationEmail".to_owned(),
        "emails".to_owned(),
        "emails.send".to_owned(),
    );
    let first = (d.exchange().to_owned(), d.routing_key().to_owned());
    let second = (d.exchange().to_owned(), d.routing_key().to_owned());
    assert_eq!(first, second);
}

struct SendConfirmationEmail;

impl Job for SendConfirmationEmail {
    fn name() -> &'static str {
        "SendConfirmationEmail"
    }

    fn exchange() -> &'static str {
        "emails"
    }

    fn routing_key() -> &'static str {
        "emails.send"
    }

    fn retries() -> u32 {
        0
    }

    fn timeout() -> Option<u64> {
        None
    }

    fn priority() -> Priority {
        Priority::Normal
    }
}

impl Perform for SendConfirmationEmail {
    type Context = u32;

    fn perform(&self, ctx: u32) {
        assert_eq!(ctx, 7);
    }
}

#[test]
fn job_trait_queries_and_perform() {
    assert_eq!(SendConfirmationEmail::name(), "SendConfirmationEmail");
    assert_eq!(SendConfirmationEmail::exchange(), "emails");
    assert_eq!(SendConfirmationEmail::routing_key(), "emails.send");
    assert_eq!(SendConfirmationEmail::retries(), 0);
    assert_eq!(SendConfirmationEmail::timeout(), None);
    assert_eq!(SendConfirmationEmail::priority(), Priority::Normal);
    assert!(SendConfirmationEmail::priority() > Priority::Trivial);
    assert!(SendConfirmationEmail::priority() < Priority::Critical);
    SendConfirmationEmail.perform(7);
}
