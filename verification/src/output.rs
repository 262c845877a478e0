//! The files that hold a summary: what is written where, and what is shown
//! once it is written. Writing itself happens elsewhere.

use crate::progress::{FinalKind, ProgressReporter};
use crate::text::texts_view;
use vstd::prelude::*;

verus! {

/// The formats a summary can be written in.
#[derive(Clone, Copy, Debug, PartialEq, Eq, Structural)]
pub enum FileFormat {
    /// The summary as plain text.
    Text,
    /// The summary as a Word document.
    Word,
    /// The summary as Markdown.
    Markdown,
    /// The summary as plain text, written before it is also sent to a
    /// platform.
    SplitText,
    /// The full transcript.
    Transcript,
}

impl FileFormat {
    /// The extension of the format's files.
    pub open spec fn extension_text(self) -> Seq<char> {
        match self {
            FileFormat::Text => ".txt"@,
            FileFormat::Word => ".docx"@,
            FileFormat::Markdown => ".md"@,
            FileFormat::SplitText => ".txt"@,
            FileFormat::Transcript => ".trans"@,
        }
    }

    pub fn extension(self) -> (extension: &'static str)
        ensures
            extension@ == self.extension_text(),
    {
        match self {
            FileFormat::Text => ".txt",
            FileFormat::Word => ".docx",
            FileFormat::Markdown => ".md",
            FileFormat::SplitText => ".txt",
            FileFormat::Transcript => ".trans",
        }
    }
}

/// What a file holds, as a mathematical value.
pub enum Contents {
    Text(Seq<char>),
    Binary(Seq<u8>),
}

/// What a file holds: text, or bytes.
#[derive(Clone, Debug, PartialEq, Eq)]
pub enum FileContents {
    Text(String),
    Binary(Vec<u8>),
}

impl View for FileContents {
    type V = Contents;

    open spec fn view(&self) -> Contents {
        match self {
            FileContents::Text(text) => Contents::Text(text@),
            FileContents::Binary(bytes) => Contents::Binary(bytes@),
        }
    }
}

/// A file to write, as a mathematical value.
pub struct Document {
    pub path: Seq<char>,
    pub contents: Contents,
}

/// A file to write.
#[derive(Clone, Debug, PartialEq, Eq)]
pub struct FileOutput {
    pub path: String,
    pub contents: FileContents,
}

impl View for FileOutput {
    type V = Document;

    open spec fn view(&self) -> Document {
        Document { path: self.path@, contents: self.contents@ }
    }
}

/// The path of an output file: the base name and the format's extension.
pub open spec fn output_path(base: Seq<char>, format: FileFormat) -> Seq<char> {
    base + format.extension_text()
}

/// The heading above a summary in a Markdown file.
pub const MARKDOWN_HEADING: &'static str = "# Summary\n\n";

/// The paragraph that closes a Word document.
pub const CLOSING_PARAGRAPH: &'static str = "\n\n";

fn path_for(base: &str, format: FileFormat) -> (path: String)
    ensures
        path@ == output_path(base@, format),
{
    let mut path = base.to_owned();
    path.append(format.extension());
    path
}

/// The text file of a summary: the summary itself, under the base name with
/// the text extension.
pub fn write_text_file(summary_file_name: &str, summarized_text: &str) -> (file: FileOutput)
    ensures
        file@ == (Document {
            path: output_path(summary_file_name@, FileFormat::Text),
            contents: Contents::Text(summarized_text@),
        }),
{
    FileOutput {
        path: path_for(summary_file_name, FileFormat::Text),
        contents: FileContents::Text(summarized_text.to_owned()),
    }
}

/// The Markdown file of a summary: a heading, then the summary.
pub fn write_markdown_file(summary_file_name: &str, summarized_text: &str) -> (file: FileOutput)
    ensures
        file@ == (Document {
            path: output_path(summary_file_name@, FileFormat::Markdown),
            contents: Contents::Text(MARKDOWN_HEADING@ + summarized_text@),
        }),
{
    let mut contents = MARKDOWN_HEADING.to_owned();
    contents.append(summarized_text);
    FileOutput {
        path: path_for(summary_file_name, FileFormat::Markdown),
        contents: FileContents::Text(contents),
    }
}

/// The file that keeps the full transcript.
pub fn transcript_file(summary_file_name: &str, transcript: &str) -> (file: FileOutput)
    ensures
        file@ == (Document {
            path: output_path(summary_file_name@, FileFormat::Transcript),
            contents: Contents::Text(transcript@),
        }),
{
    FileOutput {
        path: path_for(summary_file_name, FileFormat::Transcript),
        contents: FileContents::Text(transcript.to_owned()),
    }
}

/// `docx_rs::Docx`: a Word document under construction. Nothing of its
/// inside is visible here but what is named below.
#[verifier::external_type_specification]
#[verifier::external_body]
pub struct ExWordDocument(docx_rs::Docx);

/// The text held by the run of each of a document's paragraphs, in order.
pub uninterp spec fn document_texts(document: docx_rs::Docx) -> Seq<Seq<char>>;

/// What `Docx::build` and `XMLDocx::pack` make of a document: the bytes of
/// the archive, or the packer's error as text.
pub uninterp spec fn document_packed(document: docx_rs::Docx) -> Result<Seq<u8>, Seq<char>>;

/// What `docx_rs` holds for one character of a run's text: nothing for a
/// line feed or a carriage return, the entity for each of the five characters
/// that XML reserves, the character itself otherwise.
pub open spec fn kept_char(c: char) -> Seq<char> {
    if c == '\n' || c == '\r' {
        Seq::empty()
    } else if c == '&' {
        "&amp;"@
    } else if c == '<' {
        "&lt;"@
    } else if c == '>' {
        "&gt;"@
    } else if c == '"' {
        "&quot;"@
    } else if c == '\'' {
        "&apos;"@
    } else {
        seq![c]
    }
}

/// What `docx_rs` holds for the text of a run: what it holds for each of the
/// text's characters, in order.
pub open spec fn kept_text(text: Seq<char>) -> Seq<char>
    decreases text.len(),
{
    if text.len() == 0 {
        Seq::empty()
    } else {
        kept_text(text.drop_last()) + kept_char(text.last())
    }
}

/// `Docx::new`: a document without paragraphs.
#[verifier::external_body]
fn new_document() -> (document: docx_rs::Docx)
    ensures
        document_texts(document) == Seq::<Seq<char>>::empty(),
{
    docx_rs::Docx::new()
}

/// `Docx::add_paragraph` of a `Paragraph` with one `Run` made by
/// `Run::add_text`: the document gains one paragraph at its end. `add_text`
/// removes the line feeds, and `Text::new` then stores the text with its
/// carriage returns dropped and the characters `&`, `<`, `>`, `"` and `'`
/// replaced by their entities. The crate numbers paragraphs from a counter
/// of its own and stops the program once that counter is used up.
#[verifier::external_body]
fn add_text_paragraph(document: docx_rs::Docx, text: &str) -> (extended: docx_rs::Docx)
    ensures
        document_texts(extended) == document_texts(document).push(kept_text(text@)),
{
    document.add_paragraph(docx_rs::Paragraph::new().add_run(docx_rs::Run::new().add_text(text)))
}

/// `Docx::build` and `XMLDocx::pack` into memory: the bytes of the `.docx`
/// archive, or the packer's error as text. For a document of text
/// paragraphs, the only kind made here, the archive depends on the document
/// alone: the packer reads no clock, and each paragraph carries its number.
/// What the bytes are is only named.
#[verifier::external_body]
fn pack_document(document: docx_rs::Docx) -> (packed: Result<Vec<u8>, String>)
    ensures
        match packed {
            Ok(bytes) => document_packed(document) == Ok::<Seq<u8>, Seq<char>>(bytes@),
            Err(cause) => document_packed(document) == Err::<Seq<u8>, Seq<char>>(cause@),
        },
{
    let mut archive = std::io::Cursor::new(Vec::new());
    match document.build().pack(&mut archive) {
        Ok(()) => Ok(archive.into_inner()),
        Err(error) => Err(error.to_string()),
    }
}

/// The paragraphs of a summary's Word document: the summary, then the
/// closing paragraph.
pub open spec fn word_paragraphs(summarized_text: Seq<char>) -> Seq<Seq<char>> {
    seq![summarized_text, CLOSING_PARAGRAPH@]
}

/// The paragraphs of a summary's Word document.
pub fn paragraphs_of(summarized_text: &str) -> (paragraphs: Vec<String>)
    ensures
        texts_view(paragraphs@) == word_paragraphs(summarized_text@),
{
    let mut paragraphs: Vec<String> = Vec::new();
    paragraphs.push(summarized_text.to_owned());
    paragraphs.push(CLOSING_PARAGRAPH.to_owned());
    paragraphs
}

/// The texts that a document of the given paragraphs keeps.
pub open spec fn kept_texts(paragraphs: Seq<Seq<char>>) -> Seq<Seq<char>> {
    Seq::new(paragraphs.len(), |i: int| kept_text(paragraphs[i]))
}

/// Builds the document of the given paragraphs, one run of text each.
pub fn document_of(paragraphs: &Vec<String>) -> (document: docx_rs::Docx)
    ensures
        document_texts(document) == kept_texts(texts_view(paragraphs@)),
{
    let mut document = new_document();
    let mut i: usize = 0;
    while i < paragraphs.len()
        invariant
            i <= paragraphs.len(),
            document_texts(document) == kept_texts(texts_view(paragraphs@)).take(i as int),
        decreases paragraphs.len() - i,
    {
        document = add_text_paragraph(document, paragraphs[i].as_str());
        i = i + 1;
    }
    document
}

/// Why a file was not written, as a mathematical value.
pub enum OutputFault {
    Create(FileFormat, Seq<char>),
    Write(FileFormat, Seq<char>),
}

/// Why a file was not written: it could not be created, or its contents
/// could not be produced or written. Each holds the file's format and the
/// cause.
#[derive(Clone, Debug, PartialEq, Eq)]
pub enum OutputError {
    Create(FileFormat, String),
    Write(FileFormat, String),
}

impl View for OutputError {
    type V = OutputFault;

    open spec fn view(&self) -> OutputFault {
        match self {
            OutputError::Create(format, cause) => OutputFault::Create(*format, cause@),
            OutputError::Write(format, cause) => OutputFault::Write(*format, cause@),
        }
    }
}

/// How the failure to create a file of a format is introduced.
pub open spec fn create_lead(format: FileFormat) -> Seq<char> {
    match format {
        FileFormat::SplitText => "❌ Error creating file: "@,
        FileFormat::Transcript => "❌ Error creating transcript file: "@,
        _ => "Error creating file: "@,
    }
}

/// How the failure to write a file of a format is introduced.
pub open spec fn write_lead(format: FileFormat) -> Seq<char> {
    match format {
        FileFormat::Text => "Error creating file: "@,
        FileFormat::Word => "Error writing Word document: "@,
        FileFormat::Markdown => "Error writing Markdown file: "@,
        FileFormat::SplitText => "❌ Error creating file: "@,
        FileFormat::Transcript => "❌ Error writing transcript file: "@,
    }
}

impl OutputFault {
    pub open spec fn message(self) -> Seq<char> {
        match self {
            OutputFault::Create(format, cause) => create_lead(format) + cause,
            OutputFault::Write(format, cause) => write_lead(format) + cause,
        }
    }
}

impl OutputError {
    /// The message with which the run ends.
    pub fn message(&self) -> (message: String)
        ensures
            message@ == self@.message(),
    {
        match self {
            OutputError::Create(format, cause) => {
                let mut message = match format {
                    FileFormat::SplitText => "❌ Error creating file: ".to_owned(),
                    FileFormat::Transcript => "❌ Error creating transcript file: ".to_owned(),
                    _ => "Error creating file: ".to_owned(),
                };
                message.append(cause.as_str());
                message
            },
            OutputError::Write(format, cause) => {
                let mut message = match format {
                    FileFormat::Text => "Error creating file: ".to_owned(),
                    FileFormat::Word => "Error writing Word document: ".to_owned(),
                    FileFormat::Markdown => "Error writing Markdown file: ".to_owned(),
                    FileFormat::SplitText => "❌ Error creating file: ".to_owned(),
                    FileFormat::Transcript => "❌ Error writing transcript file: ".to_owned(),
                };
                message.append(cause.as_str());
                message
            },
        }
    }
}

/// Lays packed bytes, or the packer's error, under the Word file's path.
pub fn word_file_from(summary_file_name: &str, packed: Result<Vec<u8>, String>) -> (file: Result<
    FileOutput,
    OutputError,
>)
    ensures
        match packed {
            Ok(bytes) => file matches Ok(f) && f@ == (Document {
                path: output_path(summary_file_name@, FileFormat::Word),
                contents: Contents::Binary(bytes@),
            }),
            Err(cause) => file matches Err(e) && e@ == OutputFault::Write(FileFormat::Word, cause@),
        },
{
    match packed {
        Ok(bytes) => Ok(
            FileOutput {
                path: path_for(summary_file_name, FileFormat::Word),
                contents: FileContents::Binary(bytes),
            },
        ),
        Err(cause) => Err(OutputError::Write(FileFormat::Word, cause)),
    }
}

/// The Word document of a summary: the summary and the closing paragraph.
pub fn word_document(summarized_text: &str) -> (document: docx_rs::Docx)
    ensures
        document_texts(document) == kept_texts(word_paragraphs(summarized_text@)),
{
    let paragraphs = paragraphs_of(summarized_text);
    document_of(&paragraphs)
}

/// What the Word file of a summary is for a document: the packed bytes under
/// the base name with the Word extension, or the error of packing.
pub open spec fn word_file_of(
    summary_file_name: Seq<char>,
    document: docx_rs::Docx,
    file: Result<FileOutput, OutputError>,
) -> bool {
    match document_packed(document) {
        Ok(bytes) => file matches Ok(f) && f@ == (Document {
            path: output_path(summary_file_name, FileFormat::Word),
            contents: Contents::Binary(bytes),
        }),
        Err(cause) => file matches Err(e) && e@ == OutputFault::Write(FileFormat::Word, cause),
    }
}

/// The Word file of a summary: some document of the summary and a closing
/// paragraph, packed, under the base name with the Word extension; or the
/// error of packing that document.
pub fn write_word_file(summary_file_name: &str, summarized_text: &str) -> (file: Result<
    FileOutput,
    OutputError,
>)
    ensures
        exists|document: docx_rs::Docx|
            #[trigger] document_texts(document) == kept_texts(word_paragraphs(summarized_text@))
                && word_file_of(summary_file_name@, document, file),
{
    let document = word_document(summarized_text);
    let ghost built = document;
    let file = word_file_from(summary_file_name, pack_document(document));
    assert(document_texts(built) == kept_texts(word_paragraphs(summarized_text@))
        && word_file_of(summary_file_name@, built, file));
    file
}

pub const DONE: &'static str = "Done!";

/// The line shown once a summary's file is written.
pub open spec fn written_notice(path: Seq<char>) -> Seq<char> {
    "💾 Summary written to "@ + path
}

/// The line shown once the transcript's file is written.
pub open spec fn transcript_notice(path: Seq<char>) -> Seq<char> {
    "📝 Full transcript saved to "@ + path
}

/// The line to show for a written summary file.
pub fn summary_written(path: &str) -> (notice: String)
    ensures
        notice@ == written_notice(path@),
{
    let mut notice = "💾 Summary written to ".to_owned();
    notice.append(path);
    notice
}

/// Reports a written summary file: the reporter is closed with success, if
/// it is still open, and the line to show is handed out.
pub fn file_written(path: &str, reporter: &mut ProgressReporter) -> (notice: String)
    ensures
        notice@ == written_notice(path@),
        final(reporter)@ == old(reporter)@.closed_with(DONE@, FinalKind::Success),
{
    reporter.finalize(DONE, FinalKind::Success);
    summary_written(path)
}

/// The line to show for a written transcript file.
pub fn transcript_written(path: &str) -> (notice: String)
    ensures
        notice@ == transcript_notice(path@),
{
    let mut notice = "📝 Full transcript saved to ".to_owned();
    notice.append(path);
    notice
}

} // verus!
