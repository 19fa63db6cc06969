use rotatory::backoff::{Backoff, Builder, Exponential, Linear};
use rotatory::driver::{Operation, Session, Step};
use rotatory::synchronous::{retry, Sleep};
use rotatory::Delay;

struct RecordingSleep {
    slept: Vec<Delay>,
}

impl Sleep for RecordingSleep {
    fn sleep(&mut self, delay: Delay) {
        self.slept.push(delay);
    }
}

struct FallibleService {
    call_count: u32,
    succeed_on: Option<u32>,
}

impl FallibleService {
    fn new(succeed_on: Option<u32>) -> Self {
        Self { call_count: 0, succeed_on }
    }
}

impl Operation<i32, String> for FallibleService {
    fn attempt(&mut self) -> Result<i32, String> {
        self.call_count += 1;
        if Some(self.call_count) == self.succeed_on {
            Ok(10)
        } else {
            Err("Kaboom".to_string())
        }
    }
}

#[test]
fn should_return_result_on_ok() {
    let never_retry = rotatory::backoff::iterator(vec![]);
    let mut sleeper = RecordingSleep { slept: Vec::new() };
    let mut fallible = FallibleService::new(Some(1));

    let result = retry(never_retry, &mut sleeper, &mut fallible);

    assert_eq!(result.unwrap(), 10);
    assert_eq!(fallible.call_count, 1);
    assert!(sleeper.slept.is_empty());
}

#[test]
fn should_return_error_on_failure() {
    let never_retry = rotatory::backoff::iterator(vec![]);
    let mut sleeper = RecordingSleep { slept: Vec::new() };
    let mut fallible = FallibleService::new(None);

    let result = retry(never_retry, &mut sleeper, &mut fallible);

    let error = result.unwrap_err();
    assert_eq!(error.tries(), 1);
    assert_eq!(error.into_source(), "Kaboom".to_string());
    assert!(sleeper.slept.is_empty());
}

#[test]
fn example() {
    let backoff =
        Linear::new(Delay::from_millis(10), Delay::from_millis(2)).with_max_attempts(3);
    let mut sleeper = RecordingSleep { slept: Vec::new() };
    let mut service = FallibleService::new(Some(3));

    let result = retry(backoff, &mut sleeper, &mut service);

    assert_eq!(result.unwrap(), 10);
    assert_eq!(service.call_count, 3);
    assert_eq!(sleeper.slept, vec![Delay::from_millis(10), Delay::from_millis(12)]);
}

#[test]
fn always_failing_operation_exhausts_the_composed_strategy() {
    let backoff = Exponential::new(Delay::from_millis(20), 2)
        .with_max_delay(Delay::from_millis(200))
        .with_max_attempts(10);
    let mut sleeper = RecordingSleep { slept: Vec::new() };
    let mut service = FallibleService::new(None);

    let result = retry(backoff, &mut sleeper, &mut service);

    let error = result.unwrap_err();
    assert_eq!(error.tries(), 10);
    assert_eq!(service.call_count, 10);
    assert_eq!(error.into_source(), "Kaboom".to_string());
    assert_eq!(
        sleeper.slept,
        vec![
            Delay::from_millis(20),
            Delay::from_millis(40),
            Delay::from_millis(80),
            Delay::from_millis(160),
            Delay::from_millis(200),
            Delay::from_millis(200),
            Delay::from_millis(200),
            Delay::from_millis(200),
            Delay::from_millis(200),
        ]
    );
    let total: u64 = sleeper.slept.iter().map(|d| d.nanos).sum();
    assert_eq!(total, 1_300_000_000);
}

#[test]
fn attempts_match_invocation_count_for_any_strategy() {
    for cap in 1..6u32 {
        let backoff = Linear::new(Delay::from_millis(1), Delay::from_millis(1))
            .with_max_attempts(cap);
        let mut sleeper = RecordingSleep { slept: Vec::new() };
        let mut service = FallibleService::new(None);

        let result = retry(backoff, &mut sleeper, &mut service);

        let error = result.unwrap_err();
        assert_eq!(error.tries(), service.call_count);
        assert_eq!(error.tries(), cap.max(1));
        assert_eq!(sleeper.slept.len() as u32, cap.max(1) - 1);
    }
}

#[test]
fn session_steps_through_one_retry_sequence() {
    let backoff =
        Linear::new(Delay::from_millis(5), Delay::from_millis(5)).with_max_attempts(3);
    let mut session = Session::new(backoff);

    match session.next_action::<i32, String>(Err("first".to_string())) {
        Step::Sleep(delay) => assert_eq!(delay, Delay::from_millis(5)),
        _ => panic!("expected a wait after the first failure"),
    }
    match session.next_action::<i32, String>(Err("second".to_string())) {
        Step::Sleep(delay) => assert_eq!(delay, Delay::from_millis(10)),
        _ => panic!("expected a wait after the second failure"),
    }
    match session.next_action::<i32, String>(Err("third".to_string())) {
        Step::GiveUp(error) => {
            assert_eq!(error.tries(), 3);
            assert_eq!(error.into_source(), "third".to_string());
        },
        _ => panic!("expected the session to give up at the attempt cap"),
    }
}

#[test]
fn session_hands_a_success_through_untouched() {
    let backoff = Linear::new(Delay::from_millis(5), Delay::from_millis(5)).with_max_attempts(3);
    let mut session = Session::new(backoff);

    match session.next_action::<i32, String>(Ok(42)) {
        Step::Done(value) => assert_eq!(value, 42),
        _ => panic!("expected the success to be handed straight through"),
    }
}
