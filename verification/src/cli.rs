//! The command line of the submission program: its arguments, and the transaction that they give.

use vstd::prelude::*;
use vstd::string::*;

use crate::client::SubmissionMode;
use crate::outside;
use crate::text;

verus! {

/// How the program is used.
pub const USAGE: &'static str = "Usage:\n  cargo run --example quic_submit_example -- --endpoint localhost:9000 [--mode uni|bi|datagram] --tx-base64 <base64 signed tx> --client-cert client.pem --client-key client.key\n\nNotes:\n  Exactly one of --tx-base64 or --tx-file is required.\n  --mode defaults to uni.\n  --endpoint accepts a hostname or IP, with port 443 used by default.\n  --endpoint also accepts explicit host:port or ip:port.\n  --tx-file should contain base64-encoded signed transaction bytes.\n";

/// How many seconds the server has to close the connection before a transaction counts as
/// submitted.
pub const CLOSE_WAIT_SECONDS: u64 = 1;

/// Where the base64 text of a transaction comes from.
#[derive(Debug, PartialEq, Eq)]
pub enum TransactionSource {
    /// The text itself.
    Base64(String),
    /// The path of a file that holds the text.
    File(String),
}

/// The arguments of the program.
#[derive(Debug, PartialEq, Eq)]
pub struct Args {
    pub endpoint: String,
    pub mode: SubmissionMode,
    pub transaction: TransactionSource,
    pub client_cert: String,
    pub client_key: String,
}

/// The flags that were given so far, and the defaults of those that were not.
pub struct FlagsModel {
    pub endpoint: Seq<char>,
    pub mode: SubmissionMode,
    pub tx_base64: Option<Seq<char>>,
    pub tx_file: Option<Seq<char>>,
    pub client_cert: Option<Seq<char>>,
    pub client_key: Option<Seq<char>>,
}

/// What holds before any flag is given.
pub open spec fn default_flags() -> FlagsModel {
    FlagsModel {
        endpoint: "127.0.0.1:9000"@,
        mode: SubmissionMode::Uni,
        tx_base64: None,
        tx_file: None,
        client_cert: None,
        client_key: None,
    }
}

/// A complaint, an empty line, and how the program is used.
pub open spec fn with_usage(complaint: Seq<char>) -> Seq<char> {
    complaint + "\n\n"@ + USAGE@
}

/// The way of submitting that a word stands for.
pub open spec fn mode_of(word: Seq<char>) -> Result<SubmissionMode, Seq<char>> {
    if word == "uni"@ {
        Ok(SubmissionMode::Uni)
    } else if word == "bi"@ {
        Ok(SubmissionMode::Bi)
    } else if word == "datagram"@ {
        Ok(SubmissionMode::Datagram)
    } else {
        Err(with_usage("invalid --mode value: "@ + word))
    }
}

/// Whether a flag is one that is followed by a value.
pub open spec fn takes_value(flag: Seq<char>) -> bool {
    ||| flag == "--endpoint"@
    ||| flag == "--mode"@
    ||| flag == "--tx-base64"@
    ||| flag == "--tx-file"@
    ||| flag == "--client-cert"@
    ||| flag == "--client-key"@
}

/// The flags once one more is given.  A flag that is given again replaces what it was.
pub open spec fn set_flag(flags: FlagsModel, flag: Seq<char>, value: Seq<char>) -> Result<
    FlagsModel,
    Seq<char>,
>
    recommends
        takes_value(flag),
{
    if flag == "--endpoint"@ {
        Ok(FlagsModel { endpoint: value, ..flags })
    } else if flag == "--mode"@ {
        match mode_of(value) {
            Ok(mode) => Ok(FlagsModel { mode, ..flags }),
            Err(complaint) => Err(complaint),
        }
    } else if flag == "--tx-base64"@ {
        Ok(FlagsModel { tx_base64: Some(value), ..flags })
    } else if flag == "--tx-file"@ {
        Ok(FlagsModel { tx_file: Some(value), ..flags })
    } else if flag == "--client-cert"@ {
        Ok(FlagsModel { client_cert: Some(value), ..flags })
    } else {
        Ok(FlagsModel { client_key: Some(value), ..flags })
    }
}

/// The flags once all arguments are read, from first to last, up to the first that is wrong.
pub open spec fn read_flags(args: Seq<Seq<char>>, flags: FlagsModel) -> Result<
    FlagsModel,
    Seq<char>,
>
    decreases args.len(),
{
    if args.len() == 0 {
        Ok(flags)
    } else if args[0] == "--help"@ || args[0] == "-h"@ {
        Err(USAGE@)
    } else if !takes_value(args[0]) {
        Err(with_usage("unknown argument: "@ + args[0]))
    } else if args.len() == 1 {
        Err(with_usage("missing value for "@ + args[0]))
    } else {
        match set_flag(flags, args[0], args[1]) {
            Ok(flags) => read_flags(args.skip(2), flags),
            Err(complaint) => Err(complaint),
        }
    }
}

/// Arguments, with texts as sequences.
pub struct ArgsModel {
    pub endpoint: Seq<char>,
    pub mode: SubmissionMode,
    pub transaction: SourceModel,
    pub client_cert: Seq<char>,
    pub client_key: Seq<char>,
}

/// Where the text of a transaction comes from, with the text as a sequence.
pub enum SourceModel {
    Base64(Seq<char>),
    File(Seq<char>),
}

impl View for Args {
    type V = ArgsModel;

    open spec fn view(&self) -> ArgsModel {
        ArgsModel {
            endpoint: self.endpoint@,
            mode: self.mode,
            transaction: match self.transaction {
                TransactionSource::Base64(encoded) => SourceModel::Base64(encoded@),
                TransactionSource::File(path) => SourceModel::File(path@),
            },
            client_cert: self.client_cert@,
            client_key: self.client_key@,
        }
    }
}

/// The arguments that some flags make up: the two parts of the identity are needed, and exactly
/// one source of the transaction.
pub open spec fn complete(flags: FlagsModel) -> Result<ArgsModel, Seq<char>> {
    match (flags.client_cert, flags.client_key) {
        (Some(client_cert), Some(client_key)) => match (flags.tx_base64, flags.tx_file) {
            (Some(encoded), None) => Ok(
                ArgsModel {
                    endpoint: flags.endpoint,
                    mode: flags.mode,
                    transaction: SourceModel::Base64(encoded),
                    client_cert,
                    client_key,
                },
            ),
            (None, Some(path)) => Ok(
                ArgsModel {
                    endpoint: flags.endpoint,
                    mode: flags.mode,
                    transaction: SourceModel::File(path),
                    client_cert,
                    client_key,
                },
            ),
            _ => Err(with_usage("exactly one of --tx-base64 or --tx-file is required"@)),
        },
        _ => Err(USAGE@),
    }
}

/// The arguments that a command line gives.
pub open spec fn args_of(args: Seq<Seq<char>>) -> Result<ArgsModel, Seq<char>> {
    match read_flags(args, default_flags()) {
        Ok(flags) => complete(flags),
        Err(complaint) => Err(complaint),
    }
}

/// Words as sequences of characters.
pub open spec fn words(args: Seq<String>) -> Seq<Seq<char>> {
    Seq::new(args.len(), |i: int| args[i]@)
}

/// The flags that were given so far.
struct Flags {
    endpoint: String,
    mode: SubmissionMode,
    tx_base64: Option<String>,
    tx_file: Option<String>,
    client_cert: Option<String>,
    client_key: Option<String>,
}

spec fn optional_text(text: Option<String>) -> Option<Seq<char>> {
    match text {
        Some(text) => Some(text@),
        None => None,
    }
}

impl View for Flags {
    type V = FlagsModel;

    closed spec fn view(&self) -> FlagsModel {
        FlagsModel {
            endpoint: self.endpoint@,
            mode: self.mode,
            tx_base64: optional_text(self.tx_base64),
            tx_file: optional_text(self.tx_file),
            client_cert: optional_text(self.client_cert),
            client_key: optional_text(self.client_key),
        }
    }
}

/// A complaint about a word, followed by how the program is used.
fn complaint_about(problem: &str, word: &str) -> (complaint: String)
    ensures
        complaint@ == with_usage(problem@ + word@),
{
    let mut complaint = problem.to_owned();
    complaint.append(word);
    complaint.append("\n\n");
    complaint.append(USAGE);
    complaint
}

/// How the program is used.
pub fn usage() -> (text: String)
    ensures
        text@ == USAGE@,
{
    USAGE.to_owned()
}

impl SubmissionMode {
    /// Reads a way of submitting.
    pub fn parse(value: &str) -> (mode: Result<Self, String>)
        ensures
            match mode_of(value@) {
                Ok(expected) => mode == Ok::<_, String>(expected),
                Err(complaint) => mode matches Err(found) && found@ == complaint,
            },
    {
        if text::same_text(value, "uni") {
            Ok(SubmissionMode::Uni)
        } else if text::same_text(value, "bi") {
            Ok(SubmissionMode::Bi)
        } else if text::same_text(value, "datagram") {
            Ok(SubmissionMode::Datagram)
        } else {
            Err(complaint_about("invalid --mode value: ", value))
        }
    }

    pub open spec fn spec_name(self) -> Seq<char> {
        match self {
            SubmissionMode::Uni => "uni stream"@,
            SubmissionMode::Bi => "bi stream"@,
            SubmissionMode::Datagram => "datagram"@,
        }
    }

    /// What a way of submitting is called.
    pub fn name(self) -> (name: &'static str)
        ensures
            name@ == self.spec_name(),
    {
        match self {
            SubmissionMode::Uni => "uni stream",
            SubmissionMode::Bi => "bi stream",
            SubmissionMode::Datagram => "datagram",
        }
    }
}

impl Flags {
    /// Takes in one more flag.
    fn set(self, flag: &str, value: String) -> (flags: Result<Self, String>)
        requires
            takes_value(flag@),
        ensures
            match set_flag(self@, flag@, value@) {
                Ok(expected) => flags matches Ok(flags) && flags@ == expected,
                Err(complaint) => flags matches Err(found) && found@ == complaint,
            },
    {
        if text::same_text(flag, "--endpoint") {
            Ok(Flags { endpoint: value, ..self })
        } else if text::same_text(flag, "--mode") {
            match SubmissionMode::parse(value.as_str()) {
                Ok(mode) => Ok(Flags { mode, ..self }),
                Err(complaint) => Err(complaint),
            }
        } else if text::same_text(flag, "--tx-base64") {
            Ok(Flags { tx_base64: Some(value), ..self })
        } else if text::same_text(flag, "--tx-file") {
            Ok(Flags { tx_file: Some(value), ..self })
        } else if text::same_text(flag, "--client-cert") {
            Ok(Flags { client_cert: Some(value), ..self })
        } else {
            Ok(Flags { client_key: Some(value), ..self })
        }
    }

    /// Makes up the arguments.
    fn complete(self) -> (args: Result<Args, String>)
        ensures
            match complete(self@) {
                Ok(expected) => args matches Ok(args) && args@ == expected,
                Err(complaint) => args matches Err(found) && found@ == complaint,
            },
    {
        let client_cert = match self.client_cert {
            Some(path) => path,
            None => {
                return Err(usage());
            },
        };
        let client_key = match self.client_key {
            Some(path) => path,
            None => {
                return Err(usage());
            },
        };
        let transaction = match (self.tx_base64, self.tx_file) {
            (Some(encoded), None) => TransactionSource::Base64(encoded),
            (None, Some(path)) => TransactionSource::File(path),
            _ => {
                proof {
                    reveal_strlit("");
                    let problem = "exactly one of --tx-base64 or --tx-file is required"@;
                    assert(problem + ""@ =~= problem);
                }
                return Err(
                    complaint_about("exactly one of --tx-base64 or --tx-file is required", ""),
                );
            },
        };
        Ok(Args { endpoint: self.endpoint, mode: self.mode, transaction, client_cert, client_key })
    }
}

fn flag_takes_value(flag: &str) -> (takes: bool)
    ensures
        takes == takes_value(flag@),
{
    text::same_text(flag, "--endpoint") || text::same_text(flag, "--mode") || text::same_text(
        flag,
        "--tx-base64",
    ) || text::same_text(flag, "--tx-file") || text::same_text(flag, "--client-cert")
        || text::same_text(flag, "--client-key")
}

impl Args {
    /// Reads the arguments that follow the name of the program.
    pub fn parse(args: &Vec<String>) -> (parsed: Result<Self, String>)
        ensures
            match args_of(words(args@)) {
                Ok(expected) => parsed matches Ok(parsed) && parsed@ == expected,
                Err(complaint) => parsed matches Err(found) && found@ == complaint,
            },
    {
        let mut flags = Flags {
            endpoint: "127.0.0.1:9000".to_owned(),
            mode: SubmissionMode::Uni,
            tx_base64: None,
            tx_file: None,
            client_cert: None,
            client_key: None,
        };
        let mut position: usize = 0;
        proof {
            assert(words(args@).skip(0) =~= words(args@));
        }
        while position < args.len()
            invariant
                position <= args@.len(),
                read_flags(words(args@).skip(position as int), flags@) == read_flags(
                    words(args@),
                    default_flags(),
                ),
            decreases args@.len() - position,
        {
            let ghost rest = words(args@).skip(position as int);
            let flag = args[position].as_str();
            if text::same_text(flag, "--help") || text::same_text(flag, "-h") {
                return Err(usage());
            }
            if !flag_takes_value(flag) {
                return Err(complaint_about("unknown argument: ", flag));
            }
            if args.len() - position < 2 {
                return Err(complaint_about("missing value for ", flag));
            }
            match flags.set(flag, args[position + 1].clone()) {
                Ok(more) => {
                    flags = more;
                },
                Err(complaint) => {
                    return Err(complaint);
                },
            }
            proof {
                assert(rest.skip(2) =~= words(args@).skip(position + 2));
            }
            position = position + 2;
        }
        flags.complete()
    }
}

/// Why no transaction could be had.
#[derive(Debug)]
pub enum LoadError {
    /// There is nothing in it.
    Empty,
    /// It is not base64.
    Base64(base64::DecodeError),
}

impl LoadError {
    /// The text of the error for a reader.
    pub fn message(&self) -> (message: String)
        ensures
            match *self {
                LoadError::Empty => message@ == "transaction payload is empty"@,
                LoadError::Base64(error) => to_string_from_display_ensures::<
                    base64::DecodeError,
                >(&error, message),
            },
    {
        match self {
            LoadError::Empty => "transaction payload is empty".to_owned(),
            LoadError::Base64(error) => error.to_string(),
        }
    }
}

/// Whether accepting a transaction came out as it should, given what its text decodes to.
pub open spec fn is_accepted(
    accepted: Result<Vec<u8>, LoadError>,
    decoded: Result<Seq<u8>, base64::DecodeError>,
) -> bool {
    match decoded {
        Err(error) => accepted == Err::<Vec<u8>, _>(LoadError::Base64(error)),
        Ok(bytes) => if bytes.len() == 0 {
            accepted == Err::<Vec<u8>, _>(LoadError::Empty)
        } else {
            accepted matches Ok(transaction) && transaction@ == bytes
        },
    }
}

/// Accepts a decoded transaction if there is something in it.
pub fn accept_transaction(decoded: Result<Vec<u8>, base64::DecodeError>) -> (accepted: Result<
    Vec<u8>,
    LoadError,
>)
    ensures
        is_accepted(
            accepted,
            match decoded {
                Ok(bytes) => Ok(bytes@),
                Err(error) => Err(error),
            },
        ),
        decoded matches Ok(bytes) ==> bytes@.len() > 0 ==> accepted == Ok::<_, LoadError>(bytes),
{
    match decoded {
        Ok(bytes) => {
            if bytes.is_empty() {
                Err(LoadError::Empty)
            } else {
                Ok(bytes)
            }
        },
        Err(error) => Err(LoadError::Base64(error)),
    }
}

/// Decodes the text of a transaction, without the white space around it.
pub fn load_transaction(encoded: &str) -> (loaded: Result<Vec<u8>, LoadError>)
    ensures
        if text::trimmed(encoded@).len() == 0 {
            loaded == Err::<Vec<u8>, _>(LoadError::Empty)
        } else {
            is_accepted(loaded, outside::base64_decoded(text::trimmed(encoded@)))
        },
        loaded matches Ok(transaction) ==> outside::base64_decoded(text::trimmed(encoded@)) == Ok::<
            _,
            base64::DecodeError,
        >(transaction@),
{
    let trimmed = encoded.trim();
    if trimmed.is_empty() {
        return Err(LoadError::Empty);
    }
    accept_transaction(outside::decode_base64(trimmed))
}

/// What the program says once a transaction of so many bytes is submitted.
pub fn submitted_text(length: usize, endpoint: &str, mode: SubmissionMode) -> (text: String)
    ensures
        text@ == "submitted "@ + text::decimal_text(length as nat) + " transaction bytes to "@
            + endpoint@ + " over QUIC "@ + mode.spec_name(),
{
    let mut text = "submitted ".to_owned();
    text.append(text::decimal(length).as_str());
    text.append(" transaction bytes to ");
    text.append(endpoint);
    text.append(" over QUIC ");
    text.append(mode.name());
    text
}

/// What the program says of a response that is text.
pub fn received_text(response: &str) -> (text: String)
    ensures
        text@ == "received response: "@ + response@,
{
    let mut text = "received response: ".to_owned();
    text.append(response);
    text
}

/// What the program says of the bytes of a response, where they are text in UTF-8.
pub fn response_text(response: &[u8]) -> (text: Result<String, std::str::Utf8Error>)
    ensures
        match text {
            Ok(text) => vstd::utf8::valid_utf8(response@) && text@ == "received response: "@
                + vstd::utf8::decode_utf8(response@),
            Err(error) => !vstd::utf8::valid_utf8(response@) && error == outside::utf8_error(
                response@,
            ),
        },
{
    match std::str::from_utf8(response) {
        Ok(response) => Ok(received_text(response)),
        Err(error) => Err(error),
    }
}

/// What the program fails with where the server closes the connection before the wait is over.
pub fn closed_text(reason: &str) -> (text: String)
    ensures
        text@ == "server closed QUIC connection after submit: "@ + reason@,
{
    let mut text = "server closed QUIC connection after submit: ".to_owned();
    text.append(reason);
    text
}

/// What is not set by a flag stays as it was.
proof fn unset_flags_stay(args: Seq<Seq<char>>, flags: FlagsModel)
    ensures
        read_flags(args, flags) matches Ok(read) ==> {
            &&& !args.contains("--mode"@) ==> read.mode == flags.mode
            &&& !args.contains("--endpoint"@) ==> read.endpoint == flags.endpoint
        },
    decreases args.len(),
{
    if args.len() >= 2 {
        let rest = args.skip(2);
        assert(args.contains(args[0]));
        assert forall|word: Seq<char>| rest.contains(word) implies args.contains(word) by {
            let i = choose|i: int| 0 <= i < rest.len() && rest[i] == word;
            assert(args[i + 2] == word);
        }
        if let Ok(more) = set_flag(flags, args[0], args[1]) {
            unset_flags_stay(rest, more);
        }
    }
}

/// A transaction is submitted on a stream that only the client writes to, and to the local
/// endpoint, unless the command line says otherwise.
pub proof fn defaults_hold_unless_overridden(args: Seq<Seq<char>>)
    ensures
        args_of(args) matches Ok(parsed) ==> {
            &&& !args.contains("--mode"@) ==> parsed.mode == SubmissionMode::Uni
            &&& !args.contains("--endpoint"@) ==> parsed.endpoint == "127.0.0.1:9000"@
        },
{
    unset_flags_stay(args, default_flags());
}

/// Flags are complete exactly where both parts of the identity are given, and one source of the
/// transaction but not the other.
pub proof fn exactly_one_source_is_needed(flags: FlagsModel)
    ensures
        complete(flags) is Ok <==> {
            &&& flags.client_cert is Some
            &&& flags.client_key is Some
            &&& flags.tx_base64 is Some <==> flags.tx_file is None
        },
{
}

/// A flag that is given twice counts as it is given last.
pub proof fn last_flag_wins(
    flags: FlagsModel,
    flag: Seq<char>,
    first: Seq<char>,
    second: Seq<char>,
)
    requires
        takes_value(flag),
    ensures
        set_flag(flags, flag, first) matches Ok(once) ==> set_flag(once, flag, second) == set_flag(
            flags,
            flag,
            second,
        ),
{
}

/// A complaint always ends with how the program is used.
pub proof fn complaints_show_the_usage(args: Seq<Seq<char>>, flags: FlagsModel)
    ensures
        read_flags(args, flags) matches Err(complaint) ==> USAGE@.is_suffix_of(complaint),
        complete(flags) matches Err(complaint) ==> USAGE@.is_suffix_of(complaint),
    decreases args.len(),
{
    assert forall|complaint: Seq<char>| USAGE@.is_suffix_of(#[trigger] with_usage(complaint)) by {
        let text = with_usage(complaint);
        assert(text.subrange(text.len() - USAGE@.len(), text.len() as int) =~= USAGE@);
    }
    assert(USAGE@.is_suffix_of(USAGE@)) by {
        assert(USAGE@.subrange(0, USAGE@.len() as int) =~= USAGE@);
    }
    if args.len() >= 2 {
        if let Ok(more) = set_flag(flags, args[0], args[1]) {
            complaints_show_the_usage(args.skip(2), more);
        }
    }
}

/// No transaction that is loaded is empty.
pub proof fn loaded_transaction_is_never_empty(
    accepted: Result<Vec<u8>, LoadError>,
    decoded: Result<Seq<u8>, base64::DecodeError>,
)
    requires
        is_accepted(accepted, decoded),
    ensures
        accepted matches Ok(transaction) ==> transaction@.len() > 0,
{
}

/// A transaction that is accepted is what its text decodes to, byte for byte.  It is refused only
/// where there is nothing in it or where the text does not decode, and then with the error of
/// decoding.
pub proof fn accepted_transaction_is_what_was_decoded(
    accepted: Result<Vec<u8>, LoadError>,
    decoded: Result<Seq<u8>, base64::DecodeError>,
)
    requires
        is_accepted(accepted, decoded),
    ensures
        decoded matches Ok(bytes) ==> bytes.len() > 0 ==> (accepted matches Ok(transaction)
            && transaction@ == bytes),
        decoded matches Ok(bytes) ==> bytes.len() == 0 ==> accepted == Err::<Vec<u8>, _>(
            LoadError::Empty,
        ),
        decoded matches Err(error) ==> accepted == Err::<Vec<u8>, _>(LoadError::Base64(error)),
{
}

/// Arguments are seen whole.
pub proof fn arguments_are_seen_whole(args: Args)
    ensures
        args@.endpoint == args.endpoint@,
        args@.mode == args.mode,
        args@.client_cert == args.client_cert@,
        args@.client_key == args.client_key@,
        args.transaction matches TransactionSource::Base64(encoded) ==> args@.transaction
            == SourceModel::Base64(encoded@),
        args.transaction matches TransactionSource::File(path) ==> args@.transaction
            == SourceModel::File(path@),
{
}

/// Words are read as they stand, all of them and in order.
pub proof fn words_are_seen_whole(args: Seq<String>)
    ensures
        words(args).len() == args.len(),
        forall|i: int| 0 <= i < args.len() ==> #[trigger] words(args)[i] == args[i]@,
{
}

/// Arguments that flags make up are those flags: each is carried over as it is, whichever source
/// the transaction has.
pub proof fn arguments_carry_the_flags(flags: FlagsModel)
    ensures
        complete(flags) matches Ok(args) ==> {
            &&& args.endpoint == flags.endpoint
            &&& args.mode == flags.mode
            &&& flags.client_cert == Some(args.client_cert)
            &&& flags.client_key == Some(args.client_key)
            &&& match args.transaction {
                SourceModel::Base64(encoded) => flags.tx_base64 == Some(encoded)
                    && flags.tx_file is None,
                SourceModel::File(path) => flags.tx_file == Some(path) && flags.tx_base64 is None,
            }
        },
{
}

/// Where a part of the identity is missing, only the usage is shown.  Where both parts are given,
/// it is said that the transaction has no source, or two.
pub proof fn incomplete_flags_are_refused_for_a_reason(flags: FlagsModel)
    ensures
        flags.client_cert is None || flags.client_key is None ==> complete(flags) == Err::<
            ArgsModel,
            _,
        >(USAGE@),
        flags.client_cert is Some && flags.client_key is Some && (flags.tx_base64 is Some
            <==> flags.tx_file is Some) ==> complete(flags) == Err::<ArgsModel, _>(
            "exactly one of --tx-base64 or --tx-file is required"@ + "\n\n"@ + USAGE@,
        ),
{
}

/// No two flags are the same word, and neither are two ways of submitting.
proof fn words_differ()
    ensures
        "--endpoint"@ != "--mode"@,
        "--endpoint"@ != "--tx-base64"@,
        "--endpoint"@ != "--tx-file"@,
        "--endpoint"@ != "--client-cert"@,
        "--endpoint"@ != "--client-key"@,
        "--mode"@ != "--tx-base64"@,
        "--mode"@ != "--tx-file"@,
        "--mode"@ != "--client-cert"@,
        "--mode"@ != "--client-key"@,
        "--tx-base64"@ != "--tx-file"@,
        "--tx-base64"@ != "--client-cert"@,
        "--tx-base64"@ != "--client-key"@,
        "--tx-file"@ != "--client-cert"@,
        "--tx-file"@ != "--client-key"@,
        "--client-cert"@ != "--client-key"@,
        "--help"@ != "--mode"@,
        !takes_value("--help"@),
        !takes_value("-h"@),
        "uni"@ != "bi"@,
        "uni"@ != "datagram"@,
        "bi"@ != "datagram"@,
{
    reveal_strlit("--endpoint");
    reveal_strlit("--mode");
    reveal_strlit("--tx-base64");
    reveal_strlit("--tx-file");
    reveal_strlit("--client-cert");
    reveal_strlit("--client-key");
    reveal_strlit("--help");
    reveal_strlit("-h");
    reveal_strlit("uni");
    reveal_strlit("bi");
    reveal_strlit("datagram");
    assert("--endpoint"@.len() == 10);
    assert("--mode"@.len() == 6);
    assert("--tx-base64"@.len() == 11);
    assert("--tx-file"@.len() == 9);
    assert("--client-cert"@.len() == 13);
    assert("--client-key"@.len() == 12);
    assert("--help"@.len() == 6);
    assert("-h"@.len() == 2);
    assert("--help"@[2] != "--mode"@[2]);
    assert("uni"@.len() == 3);
    assert("bi"@.len() == 2);
    assert("datagram"@.len() == 8);
}

/// Three words stand for the three ways of submitting, and every other is refused by name.
pub proof fn each_mode_has_its_word(word: Seq<char>)
    ensures
        mode_of("uni"@) == Ok::<_, Seq<char>>(SubmissionMode::Uni),
        mode_of("bi"@) == Ok::<_, Seq<char>>(SubmissionMode::Bi),
        mode_of("datagram"@) == Ok::<_, Seq<char>>(SubmissionMode::Datagram),
        word != "uni"@ && word != "bi"@ && word != "datagram"@ ==> mode_of(word) == Err::<
            SubmissionMode,
            _,
        >("invalid --mode value: "@ + word + "\n\n"@ + USAGE@),
{
    words_differ();
}

/// A flag sets its own value, to the word behind it, and leaves every other value as it was.
pub proof fn each_flag_sets_its_own_value(flags: FlagsModel, value: Seq<char>)
    ensures
        set_flag(flags, "--endpoint"@, value) == Ok::<_, Seq<char>>(
            FlagsModel { endpoint: value, ..flags },
        ),
        set_flag(flags, "--tx-base64"@, value) == Ok::<_, Seq<char>>(
            FlagsModel { tx_base64: Some(value), ..flags },
        ),
        set_flag(flags, "--tx-file"@, value) == Ok::<_, Seq<char>>(
            FlagsModel { tx_file: Some(value), ..flags },
        ),
        set_flag(flags, "--client-cert"@, value) == Ok::<_, Seq<char>>(
            FlagsModel { client_cert: Some(value), ..flags },
        ),
        set_flag(flags, "--client-key"@, value) == Ok::<_, Seq<char>>(
            FlagsModel { client_key: Some(value), ..flags },
        ),
        set_flag(flags, "--mode"@, "uni"@) == Ok::<_, Seq<char>>(
            FlagsModel { mode: SubmissionMode::Uni, ..flags },
        ),
        set_flag(flags, "--mode"@, "bi"@) == Ok::<_, Seq<char>>(
            FlagsModel { mode: SubmissionMode::Bi, ..flags },
        ),
        set_flag(flags, "--mode"@, "datagram"@) == Ok::<_, Seq<char>>(
            FlagsModel { mode: SubmissionMode::Datagram, ..flags },
        ),
        value != "uni"@ && value != "bi"@ && value != "datagram"@ ==> set_flag(
            flags,
            "--mode"@,
            value,
        ) == Err::<FlagsModel, _>("invalid --mode value: "@ + value + "\n\n"@ + USAGE@),
{
    words_differ();
}

/// A command line can be read in two goes: after any number of pairs, the rest is read as if the
/// flags of those pairs had been there from the start.  What is wrong in them is reported whatever
/// follows.
pub proof fn reading_goes_on_where_it_stopped(
    pairs: Seq<Seq<char>>,
    rest: Seq<Seq<char>>,
    flags: FlagsModel,
)
    requires
        pairs.len() % 2 == 0,
    ensures
        read_flags(pairs + rest, flags) == match read_flags(pairs, flags) {
            Ok(read) => read_flags(rest, read),
            Err(complaint) => Err(complaint),
        },
    decreases pairs.len(),
{
    let args = pairs + rest;
    if pairs.len() == 0 {
        assert(args =~= rest);
    } else {
        assert(args[0] == pairs[0]);
        assert(args[1] == pairs[1]);
        assert(args.skip(2) =~= pairs.skip(2) + rest);
        if let Ok(more) = set_flag(flags, pairs[0], pairs[1]) {
            reading_goes_on_where_it_stopped(pairs.skip(2), rest, more);
        }
    }
}

/// Whether a flag is given, rather than being the value of another.
spec fn is_given(args: Seq<Seq<char>>, flag: Seq<char>) -> bool {
    exists|i: int| 0 <= i < args.len() && i % 2 == 0 && #[trigger] args[i] == flag
}

proof fn given_first_or_later(args: Seq<Seq<char>>, flag: Seq<char>)
    requires
        args.len() >= 2,
    ensures
        is_given(args, flag) <==> args[0] == flag || is_given(args.skip(2), flag),
{
    let rest = args.skip(2);
    if is_given(args, flag) && args[0] != flag {
        let i = choose|i: int| 0 <= i < args.len() && i % 2 == 0 && #[trigger] args[i] == flag;
        assert(rest[i - 2] == flag);
    }
    if is_given(rest, flag) {
        let i = choose|i: int| 0 <= i < rest.len() && i % 2 == 0 && #[trigger] rest[i] == flag;
        assert(args[i + 2] == flag);
    }
}

/// What a flag that is not given would set stays as it was.
proof fn values_not_given_stay(args: Seq<Seq<char>>, flags: FlagsModel)
    ensures
        read_flags(args, flags) matches Ok(read) ==> {
            &&& !is_given(args, "--endpoint"@) ==> read.endpoint == flags.endpoint
            &&& !is_given(args, "--mode"@) ==> read.mode == flags.mode
            &&& !is_given(args, "--tx-base64"@) ==> read.tx_base64 == flags.tx_base64
            &&& !is_given(args, "--tx-file"@) ==> read.tx_file == flags.tx_file
            &&& !is_given(args, "--client-cert"@) ==> read.client_cert == flags.client_cert
            &&& !is_given(args, "--client-key"@) ==> read.client_key == flags.client_key
        },
    decreases args.len(),
{
    if args.len() >= 2 {
        given_first_or_later(args, "--endpoint"@);
        given_first_or_later(args, "--mode"@);
        given_first_or_later(args, "--tx-base64"@);
        given_first_or_later(args, "--tx-file"@);
        given_first_or_later(args, "--client-cert"@);
        given_first_or_later(args, "--client-key"@);
        if let Ok(more) = set_flag(flags, args[0], args[1]) {
            values_not_given_stay(args.skip(2), more);
        }
    }
}

/// What a flag that is given sets is there in the end.
proof fn values_given_are_there(args: Seq<Seq<char>>, flags: FlagsModel)
    ensures
        read_flags(args, flags) matches Ok(read) ==> {
            &&& read.tx_base64 is Some <==> flags.tx_base64 is Some || is_given(
                args,
                "--tx-base64"@,
            )
            &&& read.tx_file is Some <==> flags.tx_file is Some || is_given(args, "--tx-file"@)
            &&& read.client_cert is Some <==> flags.client_cert is Some || is_given(
                args,
                "--client-cert"@,
            )
            &&& read.client_key is Some <==> flags.client_key is Some || is_given(
                args,
                "--client-key"@,
            )
        },
    decreases args.len(),
{
    words_differ();
    if args.len() >= 2 {
        given_first_or_later(args, "--tx-base64"@);
        given_first_or_later(args, "--tx-file"@);
        given_first_or_later(args, "--client-cert"@);
        given_first_or_later(args, "--client-key"@);
        if let Ok(more) = set_flag(flags, args[0], args[1]) {
            values_given_are_there(args.skip(2), more);
        }
    }
}

/// The value behind the last of a flag is the one that counts, whatever other flags stand before
/// and after it: the last `--mode` decides how the transaction is submitted, and so on.
pub proof fn last_value_of_a_flag_counts(
    before: Seq<Seq<char>>,
    flag: Seq<char>,
    value: Seq<char>,
    after: Seq<Seq<char>>,
)
    requires
        before.len() % 2 == 0,
        forall|i: int| 0 <= i < after.len() && i % 2 == 0 ==> #[trigger] after[i] != flag,
    ensures
        args_of(before + seq![flag, value] + after) matches Ok(parsed) ==> {
            &&& flag == "--endpoint"@ ==> parsed.endpoint == value
            &&& flag == "--mode"@ ==> match parsed.mode {
                SubmissionMode::Uni => value == "uni"@,
                SubmissionMode::Bi => value == "bi"@,
                SubmissionMode::Datagram => value == "datagram"@,
            }
            &&& flag == "--tx-base64"@ ==> parsed.transaction == SourceModel::Base64(value)
            &&& flag == "--tx-file"@ ==> parsed.transaction == SourceModel::File(value)
            &&& flag == "--client-cert"@ ==> parsed.client_cert == value
            &&& flag == "--client-key"@ ==> parsed.client_key == value
        },
{
    let pair = seq![flag, value];
    words_differ();
    assert(before + pair + after =~= before + (pair + after));
    reading_goes_on_where_it_stopped(before, pair + after, default_flags());
    if let Ok(read) = read_flags(before, default_flags()) {
        assert((pair + after).skip(2) =~= after);
        assert((pair + after)[0] == flag);
        assert((pair + after)[1] == value);
        each_flag_sets_its_own_value(read, value);
        if let Ok(more) = set_flag(read, flag, value) {
            values_not_given_stay(after, more);
            assert(!is_given(after, flag));
        }
    }
}

/// A flag that is not given leaves the default: the local endpoint, and a stream that only the
/// client writes to.  A word that is the value of another flag does not count as one.
pub proof fn values_not_given_are_the_defaults(args: Seq<Seq<char>>)
    ensures
        args_of(args) matches Ok(parsed) ==> {
            &&& (forall|i: int|
                0 <= i < args.len() && i % 2 == 0 ==> #[trigger] args[i] != "--endpoint"@)
                ==> parsed.endpoint == "127.0.0.1:9000"@
            &&& (forall|i: int|
                0 <= i < args.len() && i % 2 == 0 ==> #[trigger] args[i] != "--mode"@)
                ==> parsed.mode == SubmissionMode::Uni
        },
{
    values_not_given_stay(args, default_flags());
}

/// Flags are read exactly where the words come in pairs of a flag and its value, and every `--mode`
/// has one of its three words.
pub proof fn flags_are_read_in_pairs(args: Seq<Seq<char>>, flags: FlagsModel)
    ensures
        read_flags(args, flags) is Ok <==> {
            &&& args.len() % 2 == 0
            &&& forall|i: int|
                0 <= i < args.len() && i % 2 == 0 ==> {
                    ||| #[trigger] args[i] == "--endpoint"@
                    ||| args[i] == "--tx-base64"@
                    ||| args[i] == "--tx-file"@
                    ||| args[i] == "--client-cert"@
                    ||| args[i] == "--client-key"@
                    ||| args[i] == "--mode"@ && (args[i + 1] == "uni"@ || args[i + 1] == "bi"@
                        || args[i + 1] == "datagram"@)
                }
        },
    decreases args.len(),
{
    words_differ();
    if args.len() >= 2 {
        let rest = args.skip(2);
        assert forall|i: int| 0 <= i < rest.len() implies #[trigger] rest[i] == args[i + 2] by {}
        assert forall|i: int| 2 <= i < args.len() implies #[trigger] args[i] == rest[i - 2] by {}
        assert(args[0] == args[0]);
        if let Ok(more) = set_flag(flags, args[0], args[1]) {
            flags_are_read_in_pairs(rest, more);
        }
    } else if args.len() == 1 {
        assert(args.len() % 2 == 1);
    }
}

/// A command line is accepted exactly where its flags can be read, both parts of the identity are
/// given, and one source of the transaction but not the other.
pub proof fn command_line_is_accepted_where_complete(args: Seq<Seq<char>>)
    ensures
        args_of(args) is Ok <==> {
            &&& read_flags(args, default_flags()) is Ok
            &&& exists|i: int|
                0 <= i < args.len() && i % 2 == 0 && #[trigger] args[i] == "--client-cert"@
            &&& exists|i: int|
                0 <= i < args.len() && i % 2 == 0 && #[trigger] args[i] == "--client-key"@
            &&& (exists|i: int|
                0 <= i < args.len() && i % 2 == 0 && #[trigger] args[i] == "--tx-base64"@) != (
            exists|i: int| 0 <= i < args.len() && i % 2 == 0 && #[trigger] args[i] == "--tx-file"@)
        },
{
    values_given_are_there(args, default_flags());
}

/// Where all words can be read, a missing part of the identity shows the usage, and it is said
/// first; otherwise it is said that the transaction has no source, or two.
pub proof fn incomplete_command_line_is_complained_about(args: Seq<Seq<char>>)
    requires
        read_flags(args, default_flags()) is Ok,
    ensures
        ({
            let cert = exists|i: int|
                0 <= i < args.len() && i % 2 == 0 && #[trigger] args[i] == "--client-cert"@;
            let key = exists|i: int|
                0 <= i < args.len() && i % 2 == 0 && #[trigger] args[i] == "--client-key"@;
            let encoded = exists|i: int|
                0 <= i < args.len() && i % 2 == 0 && #[trigger] args[i] == "--tx-base64"@;
            let file = exists|i: int|
                0 <= i < args.len() && i % 2 == 0 && #[trigger] args[i] == "--tx-file"@;
            &&& !cert || !key ==> args_of(args) == Err::<ArgsModel, _>(USAGE@)
            &&& cert && key && encoded == file ==> args_of(args) == Err::<ArgsModel, _>(
                "exactly one of --tx-base64 or --tx-file is required"@ + "\n\n"@ + USAGE@,
            )
        }),
{
    values_given_are_there(args, default_flags());
}

/// The first word that cannot be read decides the complaint, whatever follows it: a call for help
/// shows the usage, and every other word is named together with what is wrong.
pub proof fn first_wrong_word_is_complained_about(
    before: Seq<Seq<char>>,
    word: Seq<char>,
    after: Seq<Seq<char>>,
)
    requires
        read_flags(before, default_flags()) is Ok,
    ensures
        word == "--help"@ || word == "-h"@ ==> args_of(before + seq![word] + after) == Err::<
            ArgsModel,
            _,
        >(USAGE@),
        word != "--help"@ && word != "-h"@ && word != "--endpoint"@ && word != "--mode"@ && word
            != "--tx-base64"@ && word != "--tx-file"@ && word != "--client-cert"@ && word
            != "--client-key"@ ==> args_of(before + seq![word] + after) == Err::<ArgsModel, _>(
            "unknown argument: "@ + word + "\n\n"@ + USAGE@,
        ),
        word == "--endpoint"@ || word == "--mode"@ || word == "--tx-base64"@ || word
            == "--tx-file"@ || word == "--client-cert"@ || word == "--client-key"@ ==> args_of(
            before + seq![word],
        ) == Err::<ArgsModel, _>("missing value for "@ + word + "\n\n"@ + USAGE@),
        word != "uni"@ && word != "bi"@ && word != "datagram"@ ==> args_of(
            before + seq!["--mode"@, word] + after,
        ) == Err::<ArgsModel, _>("invalid --mode value: "@ + word + "\n\n"@ + USAGE@),
{
    words_differ();
    flags_are_read_in_pairs(before, default_flags());
    let read = read_flags(before, default_flags())->Ok_0;

    let rest = seq![word] + after;
    assert(before + seq![word] + after =~= before + rest);
    reading_goes_on_where_it_stopped(before, rest, default_flags());
    assert(rest[0] == word);

    reading_goes_on_where_it_stopped(before, seq![word], default_flags());

    let pair = seq!["--mode"@, word] + after;
    assert(before + seq!["--mode"@, word] + after =~= before + pair);
    reading_goes_on_where_it_stopped(before, pair, default_flags());
    assert(pair[0] == "--mode"@);
    assert(pair[1] == word);
    each_flag_sets_its_own_value(read, word);
}

/// Each way of submitting goes by its own name.
pub proof fn each_mode_has_its_name(mode: SubmissionMode)
    ensures
        mode.spec_name() == match mode {
            SubmissionMode::Uni => "uni stream"@,
            SubmissionMode::Bi => "bi stream"@,
            SubmissionMode::Datagram => "datagram"@,
        },
{
}

} // verus!
