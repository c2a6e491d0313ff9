//! A connected client, and the steps in which it submits a transaction.

use vstd::prelude::*;

use crate::config;
use crate::config::{TraderApiQuicClientConfig, QUIC_MAX_PAYLOAD_BYTES};
use crate::connect::Resolving;
use crate::error::TraderApiQuicClientError;

verus! {

/// The greatest number of bytes in a response.
pub const MAX_RESPONSE_BYTES: usize = 128;

/// A way to submit a transaction.
#[derive(Debug, Clone, Copy, PartialEq, Eq, Structural)]
pub enum SubmissionMode {
    /// On a stream that only the client writes to.
    Uni,
    /// On a stream that the server answers on.
    Bi,
    /// In a datagram.
    Datagram,
}

/// One step of a submission.  A step that fails ends the submission.
#[derive(Debug, PartialEq, Eq)]
pub enum SubmissionStep<'a> {
    /// Opens a stream that only the client writes to.
    OpenUni,
    /// Opens a stream that the server answers on.
    OpenBi,
    /// Writes these bytes to the stream.
    WriteAll(&'a [u8]),
    /// Declares that nothing more is written to the stream.
    Finish,
    /// Reads the response from the stream, which fails if it is longer than this.
    ReadToEnd { limit: usize },
    /// Sends these bytes in a datagram.
    SendDatagram(Vec<u8>),
}

/// One step of a submission, with its bytes as a sequence.
pub enum StepModel {
    OpenUni,
    OpenBi,
    WriteAll(Seq<u8>),
    Finish,
    ReadToEnd { limit: nat },
    SendDatagram(Seq<u8>),
}

impl<'a> View for SubmissionStep<'a> {
    type V = StepModel;

    open spec fn view(&self) -> StepModel {
        match self {
            SubmissionStep::OpenUni => StepModel::OpenUni,
            SubmissionStep::OpenBi => StepModel::OpenBi,
            SubmissionStep::WriteAll(bytes) => StepModel::WriteAll(bytes@),
            SubmissionStep::Finish => StepModel::Finish,
            SubmissionStep::ReadToEnd { limit } => StepModel::ReadToEnd { limit: *limit as nat },
            SubmissionStep::SendDatagram(bytes) => StepModel::SendDatagram(bytes@),
        }
    }
}

/// Steps with their bytes as sequences.
pub open spec fn step_models<'a>(steps: Seq<SubmissionStep<'a>>) -> Seq<StepModel> {
    Seq::new(steps.len(), |i: int| steps[i]@)
}

/// Whether a transaction is short enough to be submitted.
pub open spec fn is_submittable(transaction: Seq<u8>) -> bool {
    transaction.len() <= QUIC_MAX_PAYLOAD_BYTES
}

/// The steps in which a transaction is submitted.
pub open spec fn submission_steps(mode: SubmissionMode, transaction: Seq<u8>) -> Seq<StepModel> {
    match mode {
        SubmissionMode::Uni => seq![
            StepModel::OpenUni,
            StepModel::WriteAll(transaction),
            StepModel::Finish,
        ],
        SubmissionMode::Bi => seq![
            StepModel::OpenBi,
            StepModel::WriteAll(transaction),
            StepModel::Finish,
            StepModel::ReadToEnd { limit: MAX_RESPONSE_BYTES as nat },
        ],
        SubmissionMode::Datagram => seq![StepModel::SendDatagram(transaction)],
    }
}

/// The error for a transaction that is too long.
pub open spec fn too_large(transaction: Seq<u8>) -> TraderApiQuicClientError {
    TraderApiQuicClientError::TransactionTooLarge {
        actual: transaction.len() as usize,
        maximum: QUIC_MAX_PAYLOAD_BYTES,
    }
}

/// A submission under way: the steps that are still to be taken, and the response so far.
#[derive(Debug, PartialEq, Eq)]
pub struct Submission<'a> {
    pub steps: Vec<SubmissionStep<'a>>,
    pub response: Vec<u8>,
}

/// Whether starting a submission came out as it should: with all its steps to be taken where the
/// transaction is short enough, and otherwise with an error that gives its length.
pub open spec fn is_started<'a>(
    started: Result<Submission<'a>, TraderApiQuicClientError>,
    mode: SubmissionMode,
    transaction: Seq<u8>,
) -> bool {
    if is_submittable(transaction) {
        &&& started matches Ok(submission)
        &&& step_models(submission.steps@) == submission_steps(mode, transaction)
        &&& submission.response@ == Seq::<u8>::empty()
    } else {
        started == Err::<Submission<'a>, _>(too_large(transaction))
    }
}

/// How one step came out.
#[derive(Debug)]
pub enum StepOutcome {
    /// The step was taken.
    Done,
    /// The response was read.
    Response(Vec<u8>),
    /// No stream could be opened.
    NotOpened(quinn::ConnectionError),
    /// The bytes could not be written.
    NotWritten(quinn::WriteError),
    /// The stream could not be finished.
    NotFinished(quinn::ClosedStream),
    /// The response could not be read.
    NotRead(quinn::ReadToEndError),
    /// The datagram could not be sent.
    NotSent(quinn::SendDatagramError),
}

/// The error that a step ends the submission with.
pub open spec fn step_error(outcome: StepOutcome) -> Option<TraderApiQuicClientError> {
    match outcome {
        StepOutcome::Done => None,
        StepOutcome::Response(_) => None,
        StepOutcome::NotOpened(error) => Some(TraderApiQuicClientError::Connection(error)),
        StepOutcome::NotWritten(error) => Some(TraderApiQuicClientError::Write(error)),
        StepOutcome::NotFinished(error) => Some(TraderApiQuicClientError::Finish(error)),
        StepOutcome::NotRead(error) => Some(TraderApiQuicClientError::ReadToEnd(error)),
        StepOutcome::NotSent(error) => Some(TraderApiQuicClientError::Datagram(error)),
    }
}

/// The response once a step came out.
pub open spec fn kept_response(response: Seq<u8>, outcome: StepOutcome) -> Seq<u8> {
    match outcome {
        StepOutcome::Response(bytes) => bytes@,
        _ => response,
    }
}

/// How a submission ends whose steps come out like this, one after the other.
pub open spec fn submission_result(response: Seq<u8>, outcomes: Seq<StepOutcome>) -> Result<
    Seq<u8>,
    TraderApiQuicClientError,
>
    decreases outcomes.len(),
{
    if outcomes.len() == 0 {
        Ok(response)
    } else {
        match step_error(outcomes.first()) {
            Some(error) => Err(error),
            None => submission_result(
                kept_response(response, outcomes.first()),
                outcomes.drop_first(),
            ),
        }
    }
}

/// The outcomes that belong to some steps, one for each as far as they go.
pub open spec fn outcomes_of_steps<'a>(
    steps: Seq<SubmissionStep<'a>>,
    outcomes: Seq<StepOutcome>,
) -> Seq<StepOutcome> {
    if outcomes.len() <= steps.len() {
        outcomes
    } else {
        outcomes.take(steps.len() as int)
    }
}

impl<'a> Submission<'a> {
    /// The step to take next, which is then no longer to be taken.
    pub fn next_step(&mut self) -> (step: Option<SubmissionStep<'a>>)
        ensures
            final(self).response == old(self).response,
            match step {
                Some(step) => old(self).steps@.len() > 0 && step == old(self).steps@.first()
                    && final(self).steps@ == old(self).steps@.drop_first(),
                None => old(self).steps@.len() == 0 && final(self).steps@ == old(self).steps@,
            },
    {
        if self.steps.is_empty() {
            None
        } else {
            let step = self.steps.remove(0);
            proof {
                assert(self.steps@ =~= old(self).steps@.drop_first());
            }
            Some(step)
        }
    }

    /// Takes in how a step came out.  A step that failed ends the submission with its error, and a
    /// response that was read is kept.
    pub fn record(&mut self, outcome: StepOutcome) -> (recorded: Result<
        (),
        TraderApiQuicClientError,
    >)
        ensures
            recorded == match step_error(outcome) {
                Some(error) => Err(error),
                None => Ok(()),
            },
            final(self).response@ == kept_response(old(self).response@, outcome),
            match step_error(outcome) {
                Some(_) => final(self).steps@ == Seq::<SubmissionStep<'a>>::empty(),
                None => final(self).steps == old(self).steps,
            },
    {
        let error = match outcome {
            StepOutcome::Done => {
                return Ok(());
            },
            StepOutcome::Response(bytes) => {
                self.response = bytes;
                return Ok(());
            },
            StepOutcome::NotOpened(error) => TraderApiQuicClientError::from(error),
            StepOutcome::NotWritten(error) => TraderApiQuicClientError::from(error),
            StepOutcome::NotFinished(error) => TraderApiQuicClientError::from(error),
            StepOutcome::NotRead(error) => TraderApiQuicClientError::from(error),
            StepOutcome::NotSent(error) => TraderApiQuicClientError::from(error),
        };
        self.steps.clear();
        Err(error)
    }

    /// Takes the steps one after the other, given how each of them comes out, and gives the
    /// response or the error that the submission ends with.  Outcomes beyond the last step are
    /// left aside.
    pub fn conclude(self, outcomes: Vec<StepOutcome>) -> (concluded: Result<
        Vec<u8>,
        TraderApiQuicClientError,
    >)
        ensures
            match submission_result(self.response@, outcomes_of_steps(self.steps@, outcomes@)) {
                Ok(response) => concluded matches Ok(found) && found@ == response,
                Err(error) => concluded == Err::<Vec<u8>, _>(error),
            },
    {
        let mut submission = self;
        let mut remaining = outcomes;
        while !remaining.is_empty()
            invariant
                submission_result(self.response@, outcomes_of_steps(self.steps@, outcomes@))
                    == submission_result(
                    submission.response@,
                    outcomes_of_steps(submission.steps@, remaining@),
                ),
            ensures
                submission_result(self.response@, outcomes_of_steps(self.steps@, outcomes@)) == Ok::<
                    _,
                    TraderApiQuicClientError,
                >(submission.response@),
            decreases remaining@.len(),
        {
            let ghost pending = outcomes_of_steps(submission.steps@, remaining@);
            if submission.next_step().is_none() {
                break;
            }
            let outcome = remaining.remove(0);
            proof {
                assert(pending.first() == outcome);
                assert(pending.drop_first() =~= outcomes_of_steps(submission.steps@, remaining@));
            }
            if let Err(error) = submission.record(outcome) {
                return Err(error);
            }
        }
        Ok(submission.response)
    }
}

/// How establishing a connection starts: with the endpoint of the configuration to be read, unless
/// the configuration holds no client certificate.
pub open spec fn connect_start(config: TraderApiQuicClientConfig) -> Result<
    Resolving,
    TraderApiQuicClientError,
> {
    if config.client_certificate_chain@.len() == 0 {
        Err(TraderApiQuicClientError::MissingClientCertificate)
    } else {
        Ok(Resolving { config })
    }
}

/// A client with an established connection.
#[derive(Debug)]
pub struct TraderApiQuicClient<C> {
    pub connection: C,
}

impl<C> TraderApiQuicClient<C> {
    /// Starts to establish the connection that a configuration asks for.
    pub fn connect(config: TraderApiQuicClientConfig) -> (started: Result<
        Resolving,
        TraderApiQuicClientError,
    >)
        ensures
            started == connect_start(config),
    {
        if config.client_certificate_chain.is_empty() {
            return Err(TraderApiQuicClientError::MissingClientCertificate);
        }
        Ok(Resolving { config })
    }

    /// Starts the submission of a transaction on a stream that only the client writes to.
    pub fn send_transaction_uni<'a>(&self, transaction: &'a [u8]) -> (started: Result<
        Submission<'a>,
        TraderApiQuicClientError,
    >)
        ensures
            is_started(started, SubmissionMode::Uni, transaction@),
    {
        match self.validate_transaction(transaction) {
            Ok(_) => {
                let mut steps: Vec<SubmissionStep<'a>> = Vec::new();
                steps.push(SubmissionStep::OpenUni);
                steps.push(SubmissionStep::WriteAll(transaction));
                steps.push(SubmissionStep::Finish);
                proof {
                    assert(step_models(steps@) =~= submission_steps(
                        SubmissionMode::Uni,
                        transaction@,
                    ));
                }
                Ok(Submission { steps, response: Vec::new() })
            },
            Err(error) => Err(error),
        }
    }

    /// Starts the submission of a transaction on a stream that the server answers on.
    pub fn send_transaction_bi<'a>(&self, transaction: &'a [u8]) -> (started: Result<
        Submission<'a>,
        TraderApiQuicClientError,
    >)
        ensures
            is_started(started, SubmissionMode::Bi, transaction@),
    {
        match self.validate_transaction(transaction) {
            Ok(_) => {
                let mut steps: Vec<SubmissionStep<'a>> = Vec::new();
                steps.push(SubmissionStep::OpenBi);
                steps.push(SubmissionStep::WriteAll(transaction));
                steps.push(SubmissionStep::Finish);
                steps.push(SubmissionStep::ReadToEnd { limit: MAX_RESPONSE_BYTES });
                proof {
                    assert(step_models(steps@) =~= submission_steps(
                        SubmissionMode::Bi,
                        transaction@,
                    ));
                }
                Ok(Submission { steps, response: Vec::new() })
            },
            Err(error) => Err(error),
        }
    }

    /// Starts the submission of a transaction in a datagram.
    pub fn send_transaction_datagram<'a>(&self, transaction: &'a [u8]) -> (started: Result<
        Submission<'a>,
        TraderApiQuicClientError,
    >)
        ensures
            is_started(started, SubmissionMode::Datagram, transaction@),
    {
        match self.validate_transaction(transaction) {
            Ok(_) => {
                let mut steps: Vec<SubmissionStep<'a>> = Vec::new();
                steps.push(SubmissionStep::SendDatagram(vstd::slice::slice_to_vec(transaction)));
                proof {
                    assert(step_models(steps@) =~= submission_steps(
                        SubmissionMode::Datagram,
                        transaction@,
                    ));
                }
                Ok(Submission { steps, response: Vec::new() })
            },
            Err(error) => Err(error),
        }
    }

    /// Refuses a transaction that is too long.
    pub fn validate_transaction(&self, transaction: &[u8]) -> (validated: Result<
        (),
        TraderApiQuicClientError,
    >)
        ensures
            validated == if is_submittable(transaction@) {
                Ok(())
            } else {
                Err(too_large(transaction@))
            },
    {
        if transaction.len() > QUIC_MAX_PAYLOAD_BYTES {
            return Err(
                TraderApiQuicClientError::TransactionTooLarge {
                    actual: transaction.len(),
                    maximum: QUIC_MAX_PAYLOAD_BYTES,
                },
            );
        }
        Ok(())
    }
}

/// A client whose configuration is made of PEM data is never refused for want of a certificate.
pub proof fn config_from_pem_can_be_connected(
    config: TraderApiQuicClientConfig,
    endpoint: Seq<char>,
    chain_pem: Seq<u8>,
    key_pem: Seq<u8>,
)
    requires
        config::is_config_from_pem(Ok(config), endpoint, chain_pem, key_pem),
    ensures
        connect_start(config) == Ok::<_, TraderApiQuicClientError>(Resolving { config }),
{
    config::config_from_pem_has_a_certificate(config, endpoint, chain_pem, key_pem);
}

/// The bytes that some steps hand to the connection.
pub open spec fn bytes_sent(steps: Seq<StepModel>) -> Seq<u8>
    decreases steps.len(),
{
    if steps.len() == 0 {
        Seq::empty()
    } else {
        let following = bytes_sent(steps.drop_first());
        match steps.first() {
            StepModel::WriteAll(bytes) => bytes + following,
            StepModel::SendDatagram(bytes) => bytes + following,
            _ => following,
        }
    }
}

/// Every way of submitting a transaction sends its bytes, all of them and nothing else.
pub proof fn every_mode_sends_the_transaction(mode: SubmissionMode, transaction: Seq<u8>)
    ensures
        bytes_sent(submission_steps(mode, transaction)) == transaction,
{
    reveal_with_fuel(bytes_sent, 5);
    let steps = submission_steps(mode, transaction);
    assert(bytes_sent(steps) =~= transaction) by {
        match mode {
            SubmissionMode::Uni => {
                assert(steps.drop_first() =~= seq![
                    StepModel::WriteAll(transaction),
                    StepModel::Finish,
                ]);
                assert(steps.drop_first().drop_first() =~= seq![StepModel::Finish]);
            },
            SubmissionMode::Bi => {
                let rest = steps.drop_first().drop_first();
                assert(rest =~= seq![
                    StepModel::Finish,
                    StepModel::ReadToEnd { limit: MAX_RESPONSE_BYTES as nat },
                ]);
                assert(rest.drop_first().drop_first() =~= Seq::<StepModel>::empty());
            },
            SubmissionMode::Datagram => {},
        }
    }
}

/// A response is read by the way of submitting that the server answers on, and by no other.  It is
/// read last, once the transaction is written and the stream is finished.
pub proof fn only_bi_reads_a_response(mode: SubmissionMode, transaction: Seq<u8>, i: int)
    requires
        0 <= i < submission_steps(mode, transaction).len(),
    ensures
        submission_steps(mode, transaction)[i] is ReadToEnd <==> mode == SubmissionMode::Bi && i
            == submission_steps(mode, transaction).len() - 1,
        submission_steps(mode, transaction)[i] is ReadToEnd ==> submission_steps(
            mode,
            transaction,
        ).contains(StepModel::Finish) && submission_steps(mode, transaction).contains(
            StepModel::WriteAll(transaction),
        ),
{
    let steps = submission_steps(mode, transaction);
    if mode == SubmissionMode::Bi {
        assert(steps[1] == StepModel::WriteAll(transaction));
        assert(steps[2] == StepModel::Finish);
    }
}

/// The first step that fails decides how a submission ends, whatever would come of those after it.
pub proof fn first_failure_decides(
    response: Seq<u8>,
    before: Seq<StepOutcome>,
    failure: StepOutcome,
    after: Seq<StepOutcome>,
)
    requires
        forall|i: int| 0 <= i < before.len() ==> step_error(#[trigger] before[i]) is None,
        step_error(failure) is Some,
    ensures
        submission_result(response, before + seq![failure] + after) == Err::<Seq<u8>, _>(
            step_error(failure)->0,
        ),
    decreases before.len(),
{
    let outcomes = before + seq![failure] + after;
    if before.len() == 0 {
        assert(outcomes.first() == failure);
    } else {
        assert(outcomes.first() == before[0]);
        let rest = before.drop_first();
        assert forall|i: int| 0 <= i < rest.len() implies step_error(#[trigger] rest[i]) is None by {
            assert(rest[i] == before[i + 1]);
        }
        first_failure_decides(kept_response(response, before[0]), rest, failure, after);
        assert(outcomes.drop_first() =~= rest + seq![failure] + after);
    }
}

/// Where every step is taken and the last one reads a response, the submission ends with the bytes
/// that were read.
pub proof fn response_is_what_was_read(
    response: Seq<u8>,
    before: Seq<StepOutcome>,
    bytes: Vec<u8>,
)
    requires
        forall|i: int| 0 <= i < before.len() ==> step_error(#[trigger] before[i]) is None,
    ensures
        submission_result(response, before.push(StepOutcome::Response(bytes))) == Ok::<
            _,
            TraderApiQuicClientError,
        >(bytes@),
    decreases before.len(),
{
    let outcomes = before.push(StepOutcome::Response(bytes));
    if before.len() == 0 {
        assert(outcomes.first() == StepOutcome::Response(bytes));
        assert(submission_result(bytes@, outcomes.drop_first()) == Ok::<
            _,
            TraderApiQuicClientError,
        >(bytes@));
    } else {
        assert(outcomes.first() == before[0]);
        let rest = before.drop_first();
        assert forall|i: int| 0 <= i < rest.len() implies step_error(#[trigger] rest[i]) is None by {
            assert(rest[i] == before[i + 1]);
        }
        response_is_what_was_read(kept_response(response, before[0]), rest, bytes);
        assert(outcomes.drop_first() =~= rest.push(StepOutcome::Response(bytes)));
    }
}

/// A stream is opened before it is used, and one that is read from is one that the server answers
/// on.
pub proof fn streams_are_opened_before_use(mode: SubmissionMode, transaction: Seq<u8>, i: int)
    requires
        0 <= i < submission_steps(mode, transaction).len(),
    ensures
        ({
            let steps = submission_steps(mode, transaction);
            &&& steps[i] is WriteAll || steps[i] is Finish ==> i > 0 && (steps[0] is OpenUni
                || steps[0] is OpenBi)
            &&& steps[i] is ReadToEnd ==> i > 0 && steps[0] is OpenBi
            &&& steps[i] is OpenUni || steps[i] is OpenBi ==> i == 0
        }),
{
}

/// All ways of submitting take the same transactions, and refuse the others alike.
pub proof fn modes_take_the_same_transactions<'a>(
    mode: SubmissionMode,
    started: Result<Submission<'a>, TraderApiQuicClientError>,
    other_mode: SubmissionMode,
    other_started: Result<Submission<'a>, TraderApiQuicClientError>,
    transaction: Seq<u8>,
)
    requires
        is_started(started, mode, transaction),
        is_started(other_started, other_mode, transaction),
    ensures
        started is Ok <==> transaction.len() <= 1232,
        started is Ok <==> other_started is Ok,
        started is Err ==> started == other_started,
{
}

/// A transaction that is short enough goes out whole and once: in a single datagram, or in a
/// single write on a stream that is opened before and finished after it.  A response is read at
/// the end, of at most 128 bytes, by the way of submitting that the server answers on alone.
pub proof fn transaction_goes_out_whole_and_once<'a>(
    started: Result<Submission<'a>, TraderApiQuicClientError>,
    mode: SubmissionMode,
    transaction: Seq<u8>,
)
    requires
        is_started(started, mode, transaction),
        transaction.len() <= 1232,
    ensures
        started matches Ok(submission) && {
            let steps = submission.steps@;
            &&& submission.response@.len() == 0
            &&& mode is Datagram ==> {
                &&& steps.len() == 1
                &&& steps[0] matches SubmissionStep::SendDatagram(bytes) && bytes@ == transaction
            }
            &&& mode is Uni ==> {
                &&& steps.len() == 3
                &&& steps[0] is OpenUni
                &&& steps[1] matches SubmissionStep::WriteAll(bytes) && bytes@ == transaction
                &&& steps[2] is Finish
            }
            &&& mode is Bi ==> {
                &&& steps.len() == 4
                &&& steps[0] is OpenBi
                &&& steps[1] matches SubmissionStep::WriteAll(bytes) && bytes@ == transaction
                &&& steps[2] is Finish
                &&& steps[3] matches SubmissionStep::ReadToEnd { limit } && limit == 128
            }
        },
{
    let steps = started->Ok_0.steps@;
    let models = step_models(steps);
    assert(models == submission_steps(mode, transaction));
    assert(models.len() == steps.len());
    assert forall|i: int| 0 <= i < steps.len() implies models[i] == (#[trigger] steps[i])@ by {}
    match mode {
        SubmissionMode::Datagram => {
            assert(steps[0]@ == StepModel::SendDatagram(transaction));
        },
        SubmissionMode::Uni => {
            assert(steps[0]@ == StepModel::OpenUni);
            assert(steps[1]@ == StepModel::WriteAll(transaction));
            assert(steps[2]@ == StepModel::Finish);
        },
        SubmissionMode::Bi => {
            assert(steps[0]@ == StepModel::OpenBi);
            assert(steps[1]@ == StepModel::WriteAll(transaction));
            assert(steps[2]@ == StepModel::Finish);
            assert(steps[3]@ == (StepModel::ReadToEnd { limit: 128 }));
        },
    }
}

/// A datagram holds the whole transaction and is the only step of its kind, and a stream gets the
/// whole transaction in one write, with nothing written behind it.
pub proof fn steps_send_the_transaction_undivided(transaction: Seq<u8>)
    ensures
        submission_steps(SubmissionMode::Datagram, transaction) == seq![
            StepModel::SendDatagram(transaction),
        ],
        submission_steps(SubmissionMode::Uni, transaction) == seq![
            StepModel::OpenUni,
            StepModel::WriteAll(transaction),
            StepModel::Finish,
        ],
        submission_steps(SubmissionMode::Bi, transaction) == seq![
            StepModel::OpenBi,
            StepModel::WriteAll(transaction),
            StepModel::Finish,
            StepModel::ReadToEnd { limit: 128 },
        ],
{
}

/// A transaction is refused exactly where it is longer than 1232 bytes, whatever they are and
/// however it would be submitted, and the error gives both numbers.
pub proof fn only_long_transactions_are_refused<'a>(
    started: Result<Submission<'a>, TraderApiQuicClientError>,
    mode: SubmissionMode,
    transaction: Seq<u8>,
)
    requires
        is_started(started, mode, transaction),
        transaction.len() <= usize::MAX,
    ensures
        is_submittable(transaction) <==> transaction.len() <= 1232,
        started is Err <==> transaction.len() > 1232,
        started matches Err(error) ==> error == too_large(transaction),
        too_large(transaction) matches TraderApiQuicClientError::TransactionTooLarge {
            actual,
            maximum,
        } && actual == transaction.len() && maximum == 1232,
{
}

/// A step that fails ends the submission with its own error, and a step that is taken ends it with
/// none.
pub proof fn steps_fail_with_their_own_errors(
    opening: quinn::ConnectionError,
    writing: quinn::WriteError,
    finishing: quinn::ClosedStream,
    reading: quinn::ReadToEndError,
    sending: quinn::SendDatagramError,
    bytes: Vec<u8>,
)
    ensures
        step_error(StepOutcome::Done) is None,
        step_error(StepOutcome::Response(bytes)) is None,
        step_error(StepOutcome::NotOpened(opening)) == Some(
            TraderApiQuicClientError::Connection(opening),
        ),
        step_error(StepOutcome::NotWritten(writing)) == Some(
            TraderApiQuicClientError::Write(writing),
        ),
        step_error(StepOutcome::NotFinished(finishing)) == Some(
            TraderApiQuicClientError::Finish(finishing),
        ),
        step_error(StepOutcome::NotRead(reading)) == Some(
            TraderApiQuicClientError::ReadToEnd(reading),
        ),
        step_error(StepOutcome::NotSent(sending)) == Some(
            TraderApiQuicClientError::Datagram(sending),
        ),
{
}

/// A response that is read is kept whole, in place of what was there, and no other outcome touches
/// it.
pub proof fn response_is_kept_whole(response: Seq<u8>, outcome: StepOutcome)
    ensures
        outcome matches StepOutcome::Response(bytes) ==> kept_response(response, outcome) == bytes@,
        outcome !is Response ==> kept_response(response, outcome) == response,
{
}

/// A submission whose steps are all taken, without a response, ends with the response that it had.
pub proof fn steps_without_a_response_leave_it(response: Seq<u8>, outcomes: Seq<StepOutcome>)
    requires
        forall|i: int| 0 <= i < outcomes.len() ==> (#[trigger] outcomes[i]) is Done,
    ensures
        submission_result(response, outcomes) == Ok::<_, TraderApiQuicClientError>(response),
    decreases outcomes.len(),
{
    if outcomes.len() > 0 {
        let rest = outcomes.drop_first();
        assert(outcomes[0] is Done);
        assert forall|i: int| 0 <= i < rest.len() implies (#[trigger] rest[i]) is Done by {
            assert(outcomes[i + 1] is Done);
        }
        steps_without_a_response_leave_it(response, rest);
    }
}

/// A submission goes on from where the steps before have left it, and not at all once one of them
/// failed.
pub proof fn outcomes_count_in_order(
    response: Seq<u8>,
    before: Seq<StepOutcome>,
    after: Seq<StepOutcome>,
)
    ensures
        submission_result(response, before + after) == match submission_result(response, before) {
            Ok(kept) => submission_result(kept, after),
            Err(error) => Err(error),
        },
    decreases before.len(),
{
    let outcomes = before + after;
    if before.len() == 0 {
        assert(outcomes =~= after);
    } else {
        assert(outcomes.first() == before.first());
        assert(outcomes.drop_first() =~= before.drop_first() + after);
        if step_error(before.first()) is None {
            outcomes_count_in_order(
                kept_response(response, before.first()),
                before.drop_first(),
                after,
            );
        }
    }
}

/// Every step has its outcome, and outcomes beyond the last step are left aside.
pub proof fn each_step_has_one_outcome<'a>(
    steps: Seq<SubmissionStep<'a>>,
    outcomes: Seq<StepOutcome>,
    beyond: Seq<StepOutcome>,
)
    ensures
        outcomes.len() <= steps.len() ==> outcomes_of_steps(steps, outcomes) == outcomes,
        outcomes.len() == steps.len() ==> outcomes_of_steps(steps, outcomes + beyond) == outcomes,
{
    if outcomes.len() == steps.len() {
        assert((outcomes + beyond).take(steps.len() as int) =~= outcomes);
        if beyond.len() == 0 {
            assert(outcomes + beyond =~= outcomes);
        }
    }
}

/// A step is seen whole, with the bytes or the limit that it holds.
pub proof fn steps_are_seen_whole<'a>(step: SubmissionStep<'a>)
    ensures
        step is OpenUni <==> step@ is OpenUni,
        step is OpenBi <==> step@ is OpenBi,
        step is Finish <==> step@ is Finish,
        step matches SubmissionStep::WriteAll(bytes) ==> step@ == StepModel::WriteAll(bytes@),
        step matches SubmissionStep::SendDatagram(bytes) ==> step@ == StepModel::SendDatagram(
            bytes@,
        ),
        step matches SubmissionStep::ReadToEnd { limit } ==> step@ == (StepModel::ReadToEnd {
            limit: limit as nat,
        }),
{
}

/// A connection is started with the configuration as it is, unless that holds no certificate;
/// nothing else in it matters.
pub proof fn only_a_missing_certificate_stops_the_start(config: TraderApiQuicClientConfig)
    ensures
        config.client_certificate_chain@.len() == 0 ==> connect_start(config) == Err::<
            Resolving,
            _,
        >(TraderApiQuicClientError::MissingClientCertificate),
        config.client_certificate_chain@.len() > 0 ==> (connect_start(config) matches Ok(resolving)
            && resolving.config == config),
{
}

} // verus!
