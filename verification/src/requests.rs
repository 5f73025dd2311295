//! The requests which insh sends to the daemon, and the parts of its responses which insh reads.

use vstd::prelude::*;

use crate::config::Config;
use crate::entry::{FileInfo, FileType};
use crate::ids::{fresh_id, is_random_uuid};
use crate::searcher_contents::FileHit;

verus! {

/// How hidden files are sorted by the daemon.
#[derive(Debug, Clone, Copy, PartialEq, Eq, Structural)]
pub enum HiddenFileSort {
    /// Hidden files come first.
    First,
    /// Hidden files come last.
    Last,
    /// Hidden files are sorted as if they were not hidden.
    Mixed,
}

/// How the daemon sorts the files of a directory.
#[derive(Debug, Clone, Copy, PartialEq, Eq, Structural)]
pub struct FileSortOptions {
    /// Whether the case of filenames is ignored.
    pub case_insensitive: bool,
    /// How hidden files are sorted.
    pub hidden: HiddenFileSort,
}

/// What is asked of the daemon.
#[derive(Debug, PartialEq, Eq)]
pub enum RequestParams {
    /// The files of a directory.
    GetFiles {
        /// The directory.
        dir: String,
        /// How they are sorted, if they are.
        sort: Option<FileSortOptions>,
        /// Whether their metadata is wanted too.
        metadata: bool,
    },
    /// The files under a directory whose names match a pattern.
    FindFiles {
        /// The directory.
        dir: String,
        /// The pattern.
        pattern: String,
    },
    /// The lines of the files under a directory which contain a phrase.
    SearchPhrase {
        /// The directory.
        dir: String,
        /// The phrase.
        phrase: String,
    },
    /// The contents of a file.
    GetFileContents {
        /// The file.
        path: String,
    },
    /// The most recent chats.
    ListChats {
        /// How many to send at most.
        limit: usize,
    },
    /// Delete a chat.
    DeleteChat {
        /// Which chat.
        chat_id: i64,
    },
    /// A completion of a pattern for finding files.
    SuggestFindPattern {
        /// What has been typed so far.
        partial: String,
    },
    /// A completion of a phrase to search for.
    SuggestSearchPhrase {
        /// What has been typed so far.
        partial: String,
    },
    /// A completion of a directory.
    SuggestDir {
        /// What has been typed so far.
        partial: String,
    },
    /// A note that a directory was gone to.
    VisitDir {
        /// The directory.
        dir: String,
    },
    /// Make a file.
    CreateFile {
        /// The path of the file.
        path: String,
        /// Which kind of file to make.
        file_type: FileType,
    },
    /// Say something to the inference engine, outside of any chat.
    AIChat {
        /// What is said.
        input: String,
    },
    /// Whether there is an inference engine to talk to.
    AiStatus,
    /// What was said in a past chat.
    GetChat {
        /// Which chat.
        chat_id: i64,
    },
    /// Say something, and be sent the reply as it comes.
    Chat {
        /// The chat to say it in, or none to start one.
        chat_id: Option<i64>,
        /// The directory the chat is about.
        dir: String,
        /// What is said.
        message: String,
    },
    /// The past chats which some text is found in, both by its words and by what it means.
    SearchChats {
        /// The text.
        text: String,
        /// How many chats to send at most.
        limit: usize,
    },
}

/// A request to the daemon.
#[derive(Debug, PartialEq, Eq)]
pub struct Request {
    /// What tells the response to this request apart from the others.
    pub uuid: u128,
    /// What is asked.
    pub params: RequestParams,
}

impl Request {
    /// Return a request with a new identifier.
    pub fn new(params: RequestParams) -> (r: Request)
        ensures
            r.params == params,
            is_random_uuid(r.uuid),
    {
        Request { uuid: fresh_id(), params }
    }

    /// Return what tells the response to this request apart from the others.
    pub fn uuid(&self) -> (u: u128)
        ensures
            u == self.uuid,
    {
        self.uuid
    }
}

/// A chat which is kept by the daemon.
#[derive(Debug, Clone, PartialEq, Eq)]
pub struct ChatSummary {
    /// Which chat it is.
    pub id: i64,
    /// What the chat is called.
    pub title: String,
}

/// What the daemon answered.
#[derive(Debug, PartialEq, Eq)]
pub enum ResponseParams {
    /// The most recent chats, the most recent first.
    ListChats {
        /// The chats.
        chats: Vec<ChatSummary>,
    },
    /// The files of a directory, or why they could not be read.
    GetFiles {
        /// The files, or why they could not be read.
        result: Result<Vec<FileInfo>, String>,
    },
    /// Whether a chat was deleted.
    DeleteChat {
        /// Whether it was.
        deleted: bool,
    },
    /// Some of the files under a directory whose names match a pattern, and how the finding is
    /// going.
    FindFiles {
        /// The paths of the files found since the last response.
        entries: Vec<String>,
        /// How many files have been looked at so far.
        searched: usize,
        /// How long the finding has taken so far, in nanoseconds.
        duration: u128,
    },
    /// The contents of a file, or why they could not be read.
    GetFileContents {
        /// The contents, or why they could not be read.
        result: Result<String, String>,
    },
    /// Some of the files under a directory which contain a phrase, and how the search is going.
    SearchPhrase {
        /// The files found since the last response, each with the lines the phrase is in.
        hits: Vec<FileHit>,
        /// How many files have been searched so far.
        searched: usize,
        /// How long the search has taken so far, in nanoseconds.
        duration: u128,
    },
    /// A completion of a pattern for finding files, if there is one.
    SuggestFindPattern {
        /// The completion.
        suggestion: Option<String>,
    },
    /// A completion of a phrase to search for, if there is one.
    SuggestSearchPhrase {
        /// The completion.
        suggestion: Option<String>,
    },
    /// A completion of a directory, if there is one.
    SuggestDir {
        /// The completion.
        suggestion: Option<String>,
    },
    /// The note that a directory was gone to was taken.
    VisitDir,
    /// Whether there is an inference engine to talk to.
    AiStatus {
        /// Whether there is one.
        configured: bool,
    },
    /// What was said in a past chat.
    GetChat {
        /// What was said, the oldest first, each with whether it was said by the person using
        /// insh.
        messages: Vec<(bool, String)>,
        /// What went wrong reading the chat, if anything did.
        error: Option<String>,
    },
    /// A piece of a reply.
    Chat {
        /// Which chat the reply is in, once there is one.
        chat_id: Option<i64>,
        /// The text which arrived.
        delta: String,
        /// What went wrong, if anything did.
        error: Option<String>,
        /// How many tokens the reply came to, once the engine says.
        tokens: Option<usize>,
        /// How many of them were the engine thinking, once the engine says.
        thinking_tokens: Option<usize>,
        /// Whether the engine is thinking rather than answering.
        thinking: bool,
        /// How long the reply has been coming, in nanoseconds.
        duration: u128,
    },
    /// The past chats which some text was found in: those found by its words, and those found
    /// by what it means.
    SearchChats {
        /// The chats found by the words.
        chats: Vec<ChatSummary>,
        /// The chats found by what was meant.
        hits: Vec<ChatSummary>,
    },
    /// A piece of what the inference engine said back, outside of any chat.
    AIChat {
        /// The text.
        text: String,
    },
    /// Whether a file was made, or why it was not.
    CreateFile {
        /// Nothing, or why the file was not made.
        result: Result<(), String>,
    },
    /// Something which is read elsewhere.
    Other,
}

/// A response from the daemon.
#[derive(Debug, PartialEq, Eq)]
pub struct Response {
    /// The identifier of the request which this answers.
    pub uuid: u128,
    /// Whether this is the last response to the request.
    pub last: bool,
    /// What was answered.
    pub params: ResponseParams,
}


/// How the daemon is asked to sort files, given the configuration.
pub open spec fn sort_of(config: Config) -> Option<FileSortOptions> {
    match config.browser.sort {
        Some(sort) => Some(FileSortOptions {
            case_insensitive: sort.case_insensitive,
            hidden: sort.hidden.spec_hidden_file_sort(),
        }),
        None => None,
    }
}

/// What is asked of the daemon to get the files of a directory.
pub open spec fn get_files_params(dir: Seq<char>, config: Config, metadata: bool) -> (Seq<char>, Option<FileSortOptions>, bool) {
    (dir, sort_of(config), metadata)
}

/// Whether some request parameters ask for the files of a directory, sorted as configured, with
/// their metadata or not.
pub open spec fn is_get_files(params: RequestParams, dir: Seq<char>, config: Config, metadata: bool) -> bool {
    params matches RequestParams::GetFiles { dir: d, sort, metadata: m } && d@ == dir && sort
        == sort_of(config) && m == metadata
}

/// Return a request for getting the files of the directory.
pub fn get_files_request(dir: String, config: &Config, metadata: bool) -> (r: Request)
    ensures
        is_get_files(r.params, dir@, *config, metadata),
        is_random_uuid(r.uuid),
{
    let sort: Option<FileSortOptions> = match config.browser().sort() {
        Some(sort) => Some(sort.file_sort_options()),
        None => None,
    };
    Request::new(RequestParams::GetFiles { dir, sort, metadata })
}

/// Return a request for finding the files matching the pattern.
pub fn find_files_request(dir: String, pattern: String) -> (r: Request)
    ensures
        r.params == (RequestParams::FindFiles { dir, pattern }),
        is_random_uuid(r.uuid),
{
    Request::new(RequestParams::FindFiles { dir, pattern })
}

/// Return a request for the contents of a file.
pub fn get_file_contents_request(path: String) -> (r: Request)
    ensures
        r.params == (RequestParams::GetFileContents { path }),
        is_random_uuid(r.uuid),
{
    Request::new(RequestParams::GetFileContents { path })
}

/// Return a request for searching the files for the phrase.
pub fn search_phrase_request(dir: String, phrase: String) -> (r: Request)
    ensures
        r.params == (RequestParams::SearchPhrase { dir, phrase }),
        is_random_uuid(r.uuid),
{
    Request::new(RequestParams::SearchPhrase { dir, phrase })
}

} // verus!
