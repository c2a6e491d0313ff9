use solana_trader_quic_client_rust::client::{
    StepOutcome, Submission, SubmissionStep, MAX_RESPONSE_BYTES,
};
use solana_trader_quic_client_rust::{TraderApiQuicClient, TraderApiQuicClientError};

fn client() -> TraderApiQuicClient<u8> {
    TraderApiQuicClient { connection: 7 }
}

fn all_steps<'a>(mut submission: Submission<'a>) -> Vec<SubmissionStep<'a>> {
    let mut steps = Vec::new();
    while let Some(step) = submission.next_step() {
        submission.record(StepOutcome::Done).unwrap();
        steps.push(step);
    }
    steps
}

#[test]
fn uni_opens_writes_and_finishes() {
    let transaction = [1, 2, 3];
    assert_eq!(
        all_steps(client().send_transaction_uni(&transaction).unwrap()),
        vec![
            SubmissionStep::OpenUni,
            SubmissionStep::WriteAll(&transaction),
            SubmissionStep::Finish
        ]
    );
}

#[test]
fn bi_reads_the_response_last() {
    let transaction = [1, 2, 3];
    assert_eq!(
        all_steps(client().send_transaction_bi(&transaction).unwrap()),
        vec![
            SubmissionStep::OpenBi,
            SubmissionStep::WriteAll(&transaction),
            SubmissionStep::Finish,
            SubmissionStep::ReadToEnd { limit: 128 }
        ]
    );
    assert_eq!(MAX_RESPONSE_BYTES, 128);
}

#[test]
fn datagram_holds_the_whole_transaction() {
    assert_eq!(
        all_steps(client().send_transaction_datagram(&[4, 5]).unwrap()),
        vec![SubmissionStep::SendDatagram(vec![4, 5])]
    );
}

#[test]
fn longest_transaction_is_taken_by_every_mode() {
    let transaction = vec![0; 1232];
    let client = client();
    assert!(client.validate_transaction(&transaction).is_ok());
    assert!(client.send_transaction_uni(&transaction).is_ok());
    assert!(client.send_transaction_bi(&transaction).is_ok());
    assert!(client.send_transaction_datagram(&transaction).is_ok());
    assert!(client.send_transaction_datagram(&[]).is_ok());
}

#[test]
fn longer_transaction_is_refused_by_every_mode() {
    let transaction = vec![0; 1233];
    let client = client();
    let refused = |error: TraderApiQuicClientError| {
        matches!(
            error,
            TraderApiQuicClientError::TransactionTooLarge { actual: 1233, maximum: 1232 }
        )
    };
    assert!(refused(client.validate_transaction(&transaction).unwrap_err()));
    assert!(refused(client.send_transaction_uni(&transaction).unwrap_err()));
    assert!(refused(client.send_transaction_bi(&transaction).unwrap_err()));
    assert!(refused(client.send_transaction_datagram(&transaction).unwrap_err()));
}

#[test]
fn response_is_kept() {
    let mut submission = client().send_transaction_bi(&[1]).unwrap();
    assert!(submission.response.is_empty());
    while let Some(step) = submission.next_step() {
        let outcome = match step {
            SubmissionStep::ReadToEnd { .. } => StepOutcome::Response(vec![9, 9]),
            _ => StepOutcome::Done,
        };
        submission.record(outcome).unwrap();
    }
    assert_eq!(submission.response, vec![9, 9]);
}

#[test]
fn failed_step_ends_the_submission_with_its_error() {
    let fail = |outcome: StepOutcome| {
        let transaction = [1];
        let mut submission = client().send_transaction_bi(&transaction).unwrap();
        assert!(submission.next_step().is_some());
        let error = submission.record(outcome).unwrap_err();
        assert_eq!(submission.next_step(), None);
        error
    };
    assert!(matches!(
        fail(StepOutcome::NotOpened(quinn::ConnectionError::TimedOut)),
        TraderApiQuicClientError::Connection(quinn::ConnectionError::TimedOut)
    ));
    assert!(matches!(
        fail(StepOutcome::NotWritten(quinn::WriteError::ClosedStream)),
        TraderApiQuicClientError::Write(quinn::WriteError::ClosedStream)
    ));
    assert!(matches!(
        fail(StepOutcome::NotFinished(quinn::ClosedStream::default())),
        TraderApiQuicClientError::Finish(_)
    ));
    assert!(matches!(
        fail(StepOutcome::NotRead(quinn::ReadToEndError::TooLong)),
        TraderApiQuicClientError::ReadToEnd(quinn::ReadToEndError::TooLong)
    ));
    assert!(matches!(
        fail(StepOutcome::NotSent(quinn::SendDatagramError::TooLarge)),
        TraderApiQuicClientError::Datagram(quinn::SendDatagramError::TooLarge)
    ));
}

#[test]
fn submission_ends_as_its_steps_come_out() {
    let transaction = [1];
    let conclude = |outcomes: Vec<StepOutcome>| {
        client().send_transaction_bi(&transaction).unwrap().conclude(outcomes)
    };
    let response = conclude(vec![
        StepOutcome::Done,
        StepOutcome::Done,
        StepOutcome::Done,
        StepOutcome::Response(vec![9, 9]),
        StepOutcome::NotSent(quinn::SendDatagramError::TooLarge),
    ]);
    assert_eq!(response.unwrap(), vec![9, 9]);

    let failed = conclude(vec![
        StepOutcome::Done,
        StepOutcome::NotWritten(quinn::WriteError::ClosedStream),
        StepOutcome::NotFinished(quinn::ClosedStream::default()),
    ]);
    assert!(matches!(failed, Err(TraderApiQuicClientError::Write(_))));

    assert_eq!(conclude(vec![]).unwrap(), Vec::<u8>::new());
    let uni = client().send_transaction_uni(&transaction).unwrap();
    assert_eq!(uni.conclude(vec![StepOutcome::Done]).unwrap(), Vec::<u8>::new());
}
