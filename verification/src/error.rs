//! The error type of the library and the kinds of refusal a history
//! operation can end in.

use crate::text::{concat2, same_text, starts_with};
use vstd::prelude::*;

verus! {

/// The error of `std::io`. Carried, never inspected.
#[verifier::external_type_specification]
#[verifier::external_body]
pub struct ExIoError(std::io::Error);

/// The error of `serde_json`. Carried, never inspected.
#[verifier::external_type_specification]
#[verifier::external_body]
pub struct ExJsonError(serde_json::Error);

/// The general error of `calamine`.
#[verifier::external_type_specification]
#[verifier::external_body]
pub struct ExWorkbookError(calamine::Error);

/// The error of `calamine` for the xlsx format.
#[verifier::external_type_specification]
#[verifier::external_body]
pub struct ExXlsxError(calamine::XlsxError);

/// Why a history operation was refused.
#[derive(Clone, Copy, Debug, PartialEq, Eq, Structural)]
pub enum ErrorKind {
    /// A current snapshot was needed and the store holds none.
    NoData,
    /// Undo at the earliest entry, or redo at the latest.
    AtBoundary,
    /// No entry carries the identifier that was asked for.
    EntryNotFound,
    /// A reset was asked of a store without entries.
    EmptyHistory,
    /// The exclusive handle on the store could not be had.
    LockFailure,
}

/// What can go wrong in the library or below it.
#[derive(Debug)]
pub enum DataAnalystError {
    /// A file could not be read.
    FileReadError(String),
    /// A CSV file could not be understood.
    CsvParseError(String),
    /// An Excel file could not be understood.
    ExcelParseError(String),
    /// No dataset of this name is known.
    DatasetNotFound(String),
    /// The data is not of the shape that was expected.
    InvalidDataFormat(String),
    /// The engine failed; the text is what it said.
    PolarsError(String),
    /// Reading or writing failed.
    IoError(std::io::Error),
    /// A value could not be turned into JSON or back.
    SerializationError(serde_json::Error),
    /// The operation cannot be done on the store as it stands.
    InvalidOperation(String),
}

/// What an error says, with the texts it carries as sequences of characters.
pub enum ErrorView {
    FileReadError(Seq<char>),
    CsvParseError(Seq<char>),
    ExcelParseError(Seq<char>),
    DatasetNotFound(Seq<char>),
    InvalidDataFormat(Seq<char>),
    PolarsError(Seq<char>),
    IoError,
    SerializationError,
    InvalidOperation(Seq<char>),
}

/// The message of a store without data.
pub open spec fn no_data_text() -> Seq<char> {
    "没有数据"@
}

/// The message of an undo at the earliest entry.
pub open spec fn at_earliest_text() -> Seq<char> {
    "已经在最早状态，无法撤销"@
}

/// The message of a redo at the latest entry.
pub open spec fn at_latest_text() -> Seq<char> {
    "已经在最新状态，无法重做"@
}

/// The message of a reset on a store without entries.
pub open spec fn empty_history_text() -> Seq<char> {
    "没有历史记录"@
}

/// What the message of an unknown identifier begins with; the identifier follows.
pub open spec fn entry_not_found_prefix() -> Seq<char> {
    "找不到历史节点: "@
}

/// What the message of a failed acquisition begins with; the cause follows.
pub open spec fn lock_failure_prefix() -> Seq<char> {
    "Failed to lock data store: "@
}

impl ErrorView {
    /// The words that come before the detail in the message.
    pub open spec fn label(self) -> Seq<char> {
        match self {
            ErrorView::FileReadError(_) => "Failed to read file: "@,
            ErrorView::CsvParseError(_) => "Failed to parse CSV: "@,
            ErrorView::ExcelParseError(_) => "Failed to parse Excel: "@,
            ErrorView::DatasetNotFound(_) => "Dataset not found: "@,
            ErrorView::InvalidDataFormat(_) => "Invalid data format: "@,
            ErrorView::PolarsError(_) => "Polars error: "@,
            ErrorView::IoError => "IO error: "@,
            ErrorView::SerializationError => "Serialization error: "@,
            ErrorView::InvalidOperation(_) => "Invalid operation: "@,
        }
    }

    /// The message, where `cause` is what a carried outside error says of
    /// itself. An error that carries its own text ignores `cause`.
    pub open spec fn message(self, cause: Seq<char>) -> Seq<char> {
        match self {
            ErrorView::FileReadError(t) => self.label() + t,
            ErrorView::CsvParseError(t) => self.label() + t,
            ErrorView::ExcelParseError(t) => self.label() + t,
            ErrorView::DatasetNotFound(t) => self.label() + t,
            ErrorView::InvalidDataFormat(t) => self.label() + t,
            ErrorView::PolarsError(t) => self.label() + t,
            ErrorView::IoError => self.label() + cause,
            ErrorView::SerializationError => self.label() + cause,
            ErrorView::InvalidOperation(t) => self.label() + t,
        }
    }

    /// The kind of history refusal that the error reports, told by its text.
    pub open spec fn kind(self) -> Option<ErrorKind> {
        match self {
            ErrorView::InvalidOperation(t) => {
                if t == no_data_text() {
                    Some(ErrorKind::NoData)
                } else if t == at_earliest_text() || t == at_latest_text() {
                    Some(ErrorKind::AtBoundary)
                } else if t == empty_history_text() {
                    Some(ErrorKind::EmptyHistory)
                } else if entry_not_found_prefix().is_prefix_of(t) {
                    Some(ErrorKind::EntryNotFound)
                } else {
                    None
                }
            },
            _ => None,
        }
    }
}

impl View for DataAnalystError {
    type V = ErrorView;

    open spec fn view(&self) -> ErrorView {
        match self {
            DataAnalystError::FileReadError(t) => ErrorView::FileReadError(t@),
            DataAnalystError::CsvParseError(t) => ErrorView::CsvParseError(t@),
            DataAnalystError::ExcelParseError(t) => ErrorView::ExcelParseError(t@),
            DataAnalystError::DatasetNotFound(t) => ErrorView::DatasetNotFound(t@),
            DataAnalystError::InvalidDataFormat(t) => ErrorView::InvalidDataFormat(t@),
            DataAnalystError::PolarsError(t) => ErrorView::PolarsError(t@),
            DataAnalystError::IoError(_) => ErrorView::IoError,
            DataAnalystError::SerializationError(_) => ErrorView::SerializationError,
            DataAnalystError::InvalidOperation(t) => ErrorView::InvalidOperation(t@),
        }
    }
}

/// `ToString::to_string` on a `std::io::Error`: what the error says of
/// itself. The text depends on the platform, so nothing is claimed of it.
#[verifier::external_body]
fn io_error_text(err: &std::io::Error) -> (text: String) {
    err.to_string()
}

/// `ToString::to_string` on a `serde_json::Error`: what the error says of
/// itself. Nothing is claimed of the text.
#[verifier::external_body]
fn json_error_text(err: &serde_json::Error) -> (text: String) {
    err.to_string()
}

/// `ToString::to_string` on a `polars::error::PolarsError`. Nothing is
/// claimed of the text.
#[verifier::external_body]
fn polars_error_text(err: &polars::error::PolarsError) -> (text: String) {
    err.to_string()
}

/// `ToString::to_string` on a `calamine::Error`. Nothing is claimed of the text.
#[verifier::external_body]
fn workbook_error_text(err: &calamine::Error) -> (text: String) {
    err.to_string()
}

/// `ToString::to_string` on a `calamine::XlsxError`. Nothing is claimed of
/// the text.
#[verifier::external_body]
fn xlsx_error_text(err: &calamine::XlsxError) -> (text: String) {
    err.to_string()
}

/// The kind of each error that the store gives out.
pub proof fn lemma_kinds(detail: Seq<char>)
    ensures
        ErrorView::InvalidOperation(no_data_text()).kind() == Some(ErrorKind::NoData),
        ErrorView::InvalidOperation(at_earliest_text()).kind() == Some(ErrorKind::AtBoundary),
        ErrorView::InvalidOperation(at_latest_text()).kind() == Some(ErrorKind::AtBoundary),
        ErrorView::InvalidOperation(empty_history_text()).kind() == Some(
            ErrorKind::EmptyHistory,
        ),
        ErrorView::InvalidOperation(entry_not_found_prefix() + detail).kind() == Some(
            ErrorKind::EntryNotFound,
        ),
{
    reveal_strlit("没有数据");
    reveal_strlit("已经在最早状态，无法撤销");
    reveal_strlit("已经在最新状态，无法重做");
    reveal_strlit("没有历史记录");
    reveal_strlit("找不到历史节点: ");
    let found = entry_not_found_prefix() + detail;
    assert(found.subrange(0, entry_not_found_prefix().len() as int)
        =~= entry_not_found_prefix());
    assert(entry_not_found_prefix().is_prefix_of(found));
    assert(found[0] == entry_not_found_prefix()[0]);
    assert(no_data_text().len() == 4);
    assert(at_earliest_text().len() == 12);
    assert(at_latest_text().len() == 12);
    assert(empty_history_text().len() == 6);
    assert(at_earliest_text()[4] != at_latest_text()[4]);
    assert(found[0] != at_earliest_text()[0]);
    assert(found[0] != at_latest_text()[0]);
}

/// The message of a handle that could not be acquired, where `cause` is
/// what the lock said.
pub open spec fn lock_failure_text(cause: Seq<char>) -> Seq<char> {
    lock_failure_prefix() + cause
}

/// The label that stands before the text of a refused operation.
pub open spec fn invalid_operation_label() -> Seq<char> {
    "Invalid operation: "@
}

/// The kind of refusal that a message reports: a failed acquisition, or
/// the kind of the refused operation whose text follows the label.
pub open spec fn message_kind(message: Seq<char>) -> Option<ErrorKind> {
    if lock_failure_prefix().is_prefix_of(message) {
        Some(ErrorKind::LockFailure)
    } else if invalid_operation_label().is_prefix_of(message) {
        ErrorView::InvalidOperation(message.skip(invalid_operation_label().len() as int)).kind()
    } else {
        None
    }
}

/// The message of a refused operation has the kind of the refusal, and
/// the message of a failed acquisition has the kind of a lock failure.
pub proof fn lemma_message_kinds(text: Seq<char>)
    ensures
        message_kind(lock_failure_text(text)) == Some(ErrorKind::LockFailure),
        message_kind(ErrorView::InvalidOperation(text).message(Seq::empty()))
            == ErrorView::InvalidOperation(text).kind(),
{
    reveal_strlit("Failed to lock data store: ");
    reveal_strlit("Invalid operation: ");
    let locked = lock_failure_text(text);
    assert(locked.subrange(0, lock_failure_prefix().len() as int) =~= lock_failure_prefix());
    assert(lock_failure_prefix().is_prefix_of(locked));
    let said = ErrorView::InvalidOperation(text).message(Seq::empty());
    assert(said == invalid_operation_label() + text);
    assert(said.subrange(0, invalid_operation_label().len() as int)
        =~= invalid_operation_label());
    assert(invalid_operation_label().is_prefix_of(said));
    assert(said.skip(invalid_operation_label().len() as int) =~= text);
    assert(!lock_failure_prefix().is_prefix_of(said)) by {
        if lock_failure_prefix().is_prefix_of(said) {
            assert(said.subrange(0, 27)[0] == lock_failure_prefix()[0]);
            assert(said[0] == invalid_operation_label()[0]);
        }
    }
}

impl DataAnalystError {
    /// The message of a refusal of the store, for a caller that hands
    /// messages on: the label of a refused operation, then the text.
    pub(crate) fn refusal(&self) -> (message: String)
        requires
            self@ is InvalidOperation,
        ensures
            message@ == refusal_message(self@->InvalidOperation_0),
            message_kind(message@) == self@.kind(),
    {
        proof {
            lemma_message_kinds(self@->InvalidOperation_0);
        }
        match self {
            DataAnalystError::InvalidOperation(t) => concat2("Invalid operation: ", t.as_str()),
            _ => String::new(),
        }
    }

    /// The error of an operation that needs a snapshot on an empty store.
    pub fn no_data() -> (e: Self)
        ensures
            e@ == ErrorView::InvalidOperation(no_data_text()),
            e@.kind() == Some(ErrorKind::NoData),
    {
        proof {
            lemma_kinds(Seq::empty());
        }
        DataAnalystError::InvalidOperation("没有数据".to_string())
    }

    /// The error of an undo at the earliest entry.
    pub fn at_earliest() -> (e: Self)
        ensures
            e@ == ErrorView::InvalidOperation(at_earliest_text()),
            e@.kind() == Some(ErrorKind::AtBoundary),
    {
        proof {
            lemma_kinds(Seq::empty());
        }
        DataAnalystError::InvalidOperation("已经在最早状态，无法撤销".to_string())
    }

    /// The error of a redo at the latest entry.
    pub fn at_latest() -> (e: Self)
        ensures
            e@ == ErrorView::InvalidOperation(at_latest_text()),
            e@.kind() == Some(ErrorKind::AtBoundary),
    {
        proof {
            lemma_kinds(Seq::empty());
        }
        DataAnalystError::InvalidOperation("已经在最新状态，无法重做".to_string())
    }

    /// The error of a reset on a store without entries.
    pub fn empty_history() -> (e: Self)
        ensures
            e@ == ErrorView::InvalidOperation(empty_history_text()),
            e@.kind() == Some(ErrorKind::EmptyHistory),
    {
        proof {
            lemma_kinds(Seq::empty());
        }
        DataAnalystError::InvalidOperation("没有历史记录".to_string())
    }

    /// The error of a jump to an identifier that no entry carries.
    pub fn entry_not_found(entry_id: &str) -> (e: Self)
        ensures
            e@ == ErrorView::InvalidOperation(entry_not_found_prefix() + entry_id@),
            e@.kind() == Some(ErrorKind::EntryNotFound),
    {
        proof {
            lemma_kinds(entry_id@);
        }
        DataAnalystError::InvalidOperation(concat2("找不到历史节点: ", entry_id))
    }

    /// The message for the user: a label for the variant, then the detail.
    /// For an error that carries an outside error the detail is what that
    /// error says of itself.
    pub fn message(&self) -> (text: String)
        ensures
            exists|cause: Seq<char>| text@ == self@.message(cause),
    {
        match self {
            DataAnalystError::FileReadError(t) => {
                let text = concat2("Failed to read file: ", t.as_str());
                assert(text@ == self@.message(Seq::empty()));
                text
            },
            DataAnalystError::CsvParseError(t) => {
                let text = concat2("Failed to parse CSV: ", t.as_str());
                assert(text@ == self@.message(Seq::empty()));
                text
            },
            DataAnalystError::ExcelParseError(t) => {
                let text = concat2("Failed to parse Excel: ", t.as_str());
                assert(text@ == self@.message(Seq::empty()));
                text
            },
            DataAnalystError::DatasetNotFound(t) => {
                let text = concat2("Dataset not found: ", t.as_str());
                assert(text@ == self@.message(Seq::empty()));
                text
            },
            DataAnalystError::InvalidDataFormat(t) => {
                let text = concat2("Invalid data format: ", t.as_str());
                assert(text@ == self@.message(Seq::empty()));
                text
            },
            DataAnalystError::PolarsError(t) => {
                let text = concat2("Polars error: ", t.as_str());
                assert(text@ == self@.message(Seq::empty()));
                text
            },
            DataAnalystError::IoError(err) => {
                let cause = io_error_text(err);
                let text = concat2("IO error: ", cause.as_str());
                assert(text@ == self@.message(cause@));
                text
            },
            DataAnalystError::SerializationError(err) => {
                let cause = json_error_text(err);
                let text = concat2("Serialization error: ", cause.as_str());
                assert(text@ == self@.message(cause@));
                text
            },
            DataAnalystError::InvalidOperation(t) => {
                let text = concat2("Invalid operation: ", t.as_str());
                assert(text@ == self@.message(Seq::empty()));
                text
            },
        }
    }

    /// The kind of history refusal that the error reports, if it reports one.
    pub fn kind(&self) -> (k: Option<ErrorKind>)
        ensures
            k == self@.kind(),
    {
        match self {
            DataAnalystError::InvalidOperation(t) => {
                let text = t.as_str();
                if same_text(text, "没有数据") {
                    Some(ErrorKind::NoData)
                } else if same_text(text, "已经在最早状态，无法撤销") || same_text(
                    text,
                    "已经在最新状态，无法重做",
                ) {
                    Some(ErrorKind::AtBoundary)
                } else if same_text(text, "没有历史记录") {
                    Some(ErrorKind::EmptyHistory)
                } else if starts_with(text, "找不到历史节点: ") {
                    Some(ErrorKind::EntryNotFound)
                } else {
                    None
                }
            },
            _ => None,
        }
    }
}

/// `done` is a refusal of kind `kind` that says `text`.
pub open spec fn refused<T>(done: Result<T, DataAnalystError>, kind: ErrorKind, text: Seq<char>) -> bool {
    &&& done is Err
    &&& done->Err_0@ == ErrorView::InvalidOperation(text)
    &&& done->Err_0@.kind() == Some(kind)
}

/// The message of a refused operation that says `text`.
pub open spec fn refusal_message(text: Seq<char>) -> Seq<char> {
    invalid_operation_label() + text
}

/// `message` is the message of the refusal of kind `kind` that says `text`.
pub open spec fn tells(message: Seq<char>, kind: ErrorKind, text: Seq<char>) -> bool {
    message == refusal_message(text) && message_kind(message) == Some(kind)
}

/// `done` failed with the message of the refusal of kind `kind` that
/// says `text`.
pub open spec fn said<T>(done: Result<T, String>, kind: ErrorKind, text: Seq<char>) -> bool {
    done is Err && tells(done->Err_0@, kind, text)
}

/// The kind of refusal that a message reports, if it reports one.
pub fn classify_message(message: &str) -> (kind: Option<ErrorKind>)
    ensures
        kind == message_kind(message@),
{
    if starts_with(message, "Failed to lock data store: ") {
        Some(ErrorKind::LockFailure)
    } else if starts_with(message, "Invalid operation: ") {
        let label = "Invalid operation: ".unicode_len();
        let len = message.unicode_len();
        let rest = message.substring_char(label, len);
        assert(rest@ =~= message@.skip(invalid_operation_label().len() as int));
        DataAnalystError::InvalidOperation(rest.to_owned()).kind()
    } else {
        None
    }
}

impl From<std::io::Error> for DataAnalystError {
    fn from(err: std::io::Error) -> (e: Self) {
        DataAnalystError::IoError(err)
    }
}

impl vstd::std_specs::convert::FromSpecImpl<std::io::Error> for DataAnalystError {
    open spec fn obeys_from_spec() -> bool {
        true
    }

    open spec fn from_spec(err: std::io::Error) -> Self {
        DataAnalystError::IoError(err)
    }
}

impl From<serde_json::Error> for DataAnalystError {
    fn from(err: serde_json::Error) -> (e: Self) {
        DataAnalystError::SerializationError(err)
    }
}

impl vstd::std_specs::convert::FromSpecImpl<serde_json::Error> for DataAnalystError {
    open spec fn obeys_from_spec() -> bool {
        true
    }

    open spec fn from_spec(err: serde_json::Error) -> Self {
        DataAnalystError::SerializationError(err)
    }
}

impl From<polars::error::PolarsError> for DataAnalystError {
    /// An engine error becomes the text that it shows.
    fn from(err: polars::error::PolarsError) -> (e: Self)
        ensures
            e@ is PolarsError,
    {
        DataAnalystError::PolarsError(polars_error_text(&err))
    }
}

impl vstd::std_specs::convert::FromSpecImpl<polars::error::PolarsError> for DataAnalystError {
    /// The text that the engine error shows is not specified, so the
    /// conversion promises the variant and no more.
    open spec fn obeys_from_spec() -> bool {
        false
    }

    open spec fn from_spec(err: polars::error::PolarsError) -> Self {
        DataAnalystError::PolarsError(arbitrary())
    }
}

impl From<calamine::Error> for DataAnalystError {
    /// A workbook error becomes the text that it shows.
    fn from(err: calamine::Error) -> (e: Self)
        ensures
            e@ is ExcelParseError,
    {
        DataAnalystError::ExcelParseError(workbook_error_text(&err))
    }
}

impl vstd::std_specs::convert::FromSpecImpl<calamine::Error> for DataAnalystError {
    open spec fn obeys_from_spec() -> bool {
        false
    }

    open spec fn from_spec(err: calamine::Error) -> Self {
        DataAnalystError::ExcelParseError(arbitrary())
    }
}

impl From<calamine::XlsxError> for DataAnalystError {
    /// An xlsx error becomes the text that it shows.
    fn from(err: calamine::XlsxError) -> (e: Self)
        ensures
            e@ is ExcelParseError,
    {
        DataAnalystError::ExcelParseError(xlsx_error_text(&err))
    }
}

impl vstd::std_specs::convert::FromSpecImpl<calamine::XlsxError> for DataAnalystError {
    open spec fn obeys_from_spec() -> bool {
        false
    }

    open spec fn from_spec(err: calamine::XlsxError) -> Self {
        DataAnalystError::ExcelParseError(arbitrary())
    }
}

impl From<DataAnalystError> for String {
    /// An error becomes its message.
    fn from(err: DataAnalystError) -> (text: String)
        ensures
            exists|cause: Seq<char>| text@ == err@.message(cause),
    {
        err.message()
    }
}

impl vstd::std_specs::convert::FromSpecImpl<DataAnalystError> for String {
    /// The message of an error that carries an outside error depends on
    /// what that error shows, so the conversion is stated on `from` itself.
    open spec fn obeys_from_spec() -> bool {
        false
    }

    open spec fn from_spec(err: DataAnalystError) -> String {
        arbitrary()
    }
}

} // verus!
