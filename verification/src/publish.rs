use crate::address::{address_message, address_of, is_address_text, note_dirname, FILENAME_BYTES};
use crate::config::Config;
use crate::entry::{file_stem, stem_of};
use crate::markdown::{document_html, document_tokens, render_markdown, title_of, RenderError};
use crate::sha256::MAX_MESSAGE_BYTES;
use vstd::prelude::*;
use vstd::string::StringExecFns;

verus! {

/// Name of the rendered page inside a note's directory.
pub const INDEX_NAME: &'static str = "index.html";

/// Name of the copy of the source inside a note's directory.
pub const MARKDOWN_NOTE_NAME: &'static str = "note.md";

/// What is settled about a note before any of it is read: the directory
/// it goes to, and the line that reports it where progress is reported.
#[derive(Debug, Clone, PartialEq, Eq)]
pub struct NotePlan {
    /// The name of the note's directory inside the output directory.
    pub address: String,
    /// The line to report, unless the run is quiet.
    pub progress: Option<String>,
}

/// The line that reports a note: its file name, an arrow, its address.
pub open spec fn progress_text(name: Seq<char>, address: Seq<char>) -> Seq<char> {
    name + " -> "@ + address
}

/// What a template is given for a note, as keys and values in this order:
/// the rendered body, the title, the name of the source copy, and the
/// address.
pub open spec fn page_data(content: Seq<char>, title: Seq<char>, key: Seq<char>) -> Seq<
    (Seq<char>, Seq<char>),
> {
    seq![
        ("content"@, content),
        ("title"@, title),
        ("sourcefile"@, MARKDOWN_NOTE_NAME@),
        ("key"@, key),
    ]
}

/// The line that reports a note.
pub fn progress_line(name: &str, address: &str) -> (line: String)
    ensures
        line@ == progress_text(name@, address@),
{
    let mut line = name.to_owned();
    line.append(" -> ");
    line.append(address);
    line
}

/// Plans the publication of the note with the given file name: its
/// address comes from the stem of the name and the secret.
pub fn plan_note(name: &str, config: &Config) -> (plan: NotePlan)
    requires
        address_message(stem_of(name@), config.secret@).len() <= MAX_MESSAGE_BYTES,
    ensures
        plan.address@ == address_of(stem_of(name@), config.secret@, FILENAME_BYTES as nat),
        plan.address@.len() == 12,
        is_address_text(plan.address@),
        match plan.progress {
            Some(line) => !config.quiet && line@ == progress_text(name@, plan.address@),
            None => config.quiet,
        },
{
    let address = note_dirname(file_stem(name), config.secret.as_str());
    let progress = if config.quiet {
        None
    } else {
        Some(progress_line(name, address.as_str()))
    };
    NotePlan { address, progress }
}

/// Plans the publication of a note where its address can be derived: the
/// hasher takes no message longer than `MAX_MESSAGE_BYTES`, and there is
/// no plan for a note whose stem and secret together are longer.
pub fn checked_plan_note(name: &str, config: &Config) -> (plan: Option<NotePlan>)
    ensures
        plan is Some <==> address_message(stem_of(name@), config.secret@).len()
            <= MAX_MESSAGE_BYTES,
        plan matches Some(p) ==> {
            &&& p.address@ == address_of(stem_of(name@), config.secret@, FILENAME_BYTES as nat)
            &&& p.address@.len() == 12
            &&& is_address_text(p.address@)
            &&& match p.progress {
                Some(line) => !config.quiet && line@ == progress_text(name@, p.address@),
                None => config.quiet,
            }
        },
{
    let stem_bytes: usize = file_stem(name).as_bytes().len();
    let secret_bytes: usize = config.secret.as_str().as_bytes().len();
    if stem_bytes as u128 + secret_bytes as u128 <= MAX_MESSAGE_BYTES as u128 {
        Some(plan_note(name, config))
    } else {
        None
    }
}

/// Puts together what a template is given for a note.
pub fn template_data(content: String, title: String, key: String) -> (data: Vec<(String, String)>)
    ensures
        data.deep_view() == page_data(content@, title@, key@),
{
    let mut data: Vec<(String, String)> = Vec::new();
    data.push(("content".to_owned(), content));
    data.push(("title".to_owned(), title));
    data.push(("sourcefile".to_owned(), MARKDOWN_NOTE_NAME.to_owned()));
    data.push(("key".to_owned(), key));
    data
}

/// Renders a note and puts together what its template is given.
pub fn render_page(markdown: &str, address: &str) -> (page: Result<
    Vec<(String, String)>,
    RenderError,
>)
    ensures
        match title_of(document_tokens(markdown@)) {
            Some(title) => page matches Ok(data) && data.deep_view() == page_data(
                document_html(markdown@),
                title,
                address@,
            ),
            None => page == Err::<Vec<(String, String)>, RenderError>(RenderError::InvalidText),
        },
{
    match render_markdown(markdown) {
        Ok((content, title)) => Ok(template_data(content, title, address.to_owned())),
        Err(e) => Err(e),
    }
}

/// Whether `outcome` is the address and the template data of the note with
/// the given name and text.
pub open spec fn is_publication(
    outcome: (Seq<char>, Seq<(Seq<char>, Seq<char>)>),
    name: Seq<char>,
    secret: Seq<char>,
    markdown: Seq<char>,
) -> bool {
    &&& outcome.0 == address_of(stem_of(name), secret, FILENAME_BYTES as nat)
    &&& title_of(document_tokens(markdown)) matches Some(title)
    &&& outcome.1 == page_data(document_html(markdown), title, outcome.0)
}

/// Publishing is repeatable: the address of a note and what its template
/// is given are functions of the note's name, its text and the secret, so
/// a second run over the same notes gives the same again.
pub proof fn lemma_publication_is_repeatable(
    name: Seq<char>,
    secret: Seq<char>,
    markdown: Seq<char>,
    first: (Seq<char>, Seq<(Seq<char>, Seq<char>)>),
    second: (Seq<char>, Seq<(Seq<char>, Seq<char>)>),
)
    requires
        is_publication(first, name, secret, markdown),
        is_publication(second, name, secret, markdown),
    ensures
        first == second,
{
}

} // verus!
