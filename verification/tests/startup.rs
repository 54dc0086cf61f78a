use general_api::startup::{Directive, Phase, StartupError, Step};

fn run(outcomes: &[bool]) -> Phase {
    let mut phase = Phase::initial();
    for ok in outcomes {
        phase = phase.advance(*ok);
    }
    phase
}

#[test]
fn a_fresh_process_reads_the_database_url_first() {
    assert_eq!(Phase::initial(), Phase::Due(Step::ReadDatabaseUrl));
    assert_eq!(Phase::initial().directive(), Directive::Perform(Step::ReadDatabaseUrl));
}

#[test]
fn steps_come_in_order() {
    assert_eq!(run(&[true]), Phase::Due(Step::Connect));
    assert_eq!(run(&[true, true]), Phase::Due(Step::Migrate));
    assert_eq!(run(&[true, true, true]), Phase::Due(Step::Bind));
    assert_eq!(run(&[true, true, true, true]), Phase::Due(Step::Serve));
    assert_eq!(run(&[true, true, true, true, true]), Phase::Finished);
    assert_eq!(run(&[true, true, true, true, true]).directive(), Directive::Exit);
}

#[test]
fn successor_walks_the_five_steps() {
    assert_eq!(Step::ReadDatabaseUrl.successor(), Some(Step::Connect));
    assert_eq!(Step::Connect.successor(), Some(Step::Migrate));
    assert_eq!(Step::Migrate.successor(), Some(Step::Bind));
    assert_eq!(Step::Bind.successor(), Some(Step::Serve));
    assert_eq!(Step::Serve.successor(), None);
}

#[test]
fn each_step_has_its_own_fault() {
    assert_eq!(Step::ReadDatabaseUrl.failure(), StartupError::DatabaseUrlMissing);
    assert_eq!(Step::Connect.failure(), StartupError::ConnectFailed);
    assert_eq!(Step::Migrate.failure(), StartupError::MigrationFailed);
    assert_eq!(Step::Bind.failure(), StartupError::BindFailed);
    assert_eq!(Step::Serve.failure(), StartupError::ServeFailed);
}

#[test]
fn each_failure_aborts_with_its_fault() {
    assert_eq!(run(&[false]).directive(), Directive::Abort(StartupError::DatabaseUrlMissing));
    assert_eq!(run(&[true, false]).directive(), Directive::Abort(StartupError::ConnectFailed));
    assert_eq!(
        run(&[true, true, false]).directive(),
        Directive::Abort(StartupError::MigrationFailed)
    );
    assert_eq!(
        run(&[true, true, true, false]).directive(),
        Directive::Abort(StartupError::BindFailed)
    );
    assert_eq!(
        run(&[true, true, true, true, false]).directive(),
        Directive::Abort(StartupError::ServeFailed)
    );
}

#[test]
fn unset_database_url_never_reaches_bind() {
    let mut phase = Phase::initial();
    assert_ne!(phase.directive(), Directive::Perform(Step::Bind));
    phase = phase.advance(false);
    for later in [true, true, true, false, true, true] {
        assert_eq!(phase.directive(), Directive::Abort(StartupError::DatabaseUrlMissing));
        phase = phase.advance(later);
    }
    assert_eq!(phase, Phase::Failed(StartupError::DatabaseUrlMissing));
}

#[test]
fn bind_is_due_only_after_three_successes() {
    for bits in 0u32..64 {
        for len in 0usize..=6 {
            let outcomes: Vec<bool> = (0..len).map(|i| bits & (1 << i) != 0).collect();
            let wants_bind = run(&outcomes).directive() == Directive::Perform(Step::Bind);
            assert_eq!(wants_bind, outcomes == vec![true, true, true]);
        }
    }
}

#[test]
fn a_finished_or_failed_process_stays_so() {
    let done = run(&[true, true, true, true, true]);
    assert_eq!(done.advance(true), Phase::Finished);
    assert_eq!(done.advance(false), Phase::Finished);
    let failed = run(&[true, false]);
    assert_eq!(failed.advance(true), Phase::Failed(StartupError::ConnectFailed));
    assert_eq!(failed.advance(false), Phase::Failed(StartupError::ConnectFailed));
}

#[test]
fn worded_faults_have_their_diagnostics() {
    assert_eq!(StartupError::DatabaseUrlMissing.message(), Some("DATABASE_URL must be set"));
    assert_eq!(StartupError::ConnectFailed.message(), Some("DB接続に失敗しました"));
    assert_eq!(StartupError::MigrationFailed.message(), Some("マイグレーションに失敗しました"));
    assert_eq!(StartupError::BindFailed.message(), None);
    assert_eq!(StartupError::ServeFailed.message(), None);
}

#[test]
fn due_steps_only_move_forward() {
    let order = [Step::ReadDatabaseUrl, Step::Connect, Step::Migrate, Step::Bind, Step::Serve];
    let mut phase = Phase::initial();
    let mut seen: Vec<Step> = Vec::new();
    while let Directive::Perform(step) = phase.directive() {
        assert!(!seen.contains(&step));
        seen.push(step);
        phase = phase.advance(true);
    }
    assert_eq!(seen, order.to_vec());
    assert_eq!(phase, Phase::Finished);
}

#[test]
fn the_first_failure_decides_the_fault() {
    let order = [Step::ReadDatabaseUrl, Step::Connect, Step::Migrate, Step::Bind, Step::Serve];
    for (k, step) in order.iter().enumerate() {
        let mut outcomes = vec![true; k];
        outcomes.push(false);
        for tail in [vec![], vec![true], vec![false, true], vec![true, true, true, true]] {
            let mut all = outcomes.clone();
            all.extend(tail);
            assert_eq!(run(&all), Phase::Failed(step.failure()));
        }
    }
}
