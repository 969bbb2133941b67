//! Planning the start of a local single-node database for development: the
//! command line to run, the files that it uses, and what to make of the
//! file in which the database reports the URL that it listens on.
//!
//! Running the command, and making and removing the files, is left to the
//! caller.

use crate::names::texts;
use vstd::prelude::*;
use vstd::string::*;

verus! {

/// How long, in milliseconds, to wait by default for the database to report
/// the URL that it listens on.
pub const COCKROACHDB_START_TIMEOUT_DEFAULT: u64 = 30_000;

/// Builder for [`CockroachStarter`]. Without changes, the command line is
/// `cockroach start-single-node --insecure --listen-addr=127.0.0.1:0
/// --http-addr=:0`, followed by the arguments for the store and for the
/// file with the listen URL.
#[derive(Clone, Debug, PartialEq, Eq)]
pub struct CockroachStarterBuilder {
    /// Where the database stores its data, if the caller said so.
    store_dir: Option<String>,
    /// The command and its arguments.
    args: Vec<String>,
    /// How long to wait for the database to report its URL, in milliseconds.
    start_timeout: u64,
    /// Whether standard output and standard error go to files.
    redirect_stdio: bool,
}

/// The plan for running the database: what to run, and where the files
/// are.
#[derive(Clone, Debug, PartialEq, Eq)]
pub struct CockroachStarter {
    /// The directory for the URL file and, unless the caller said
    /// otherwise, for the data.
    temp_dir: String,
    /// The file in which the database reports the URL that it listens on.
    listen_url_file: String,
    /// The command and its arguments.
    args: Vec<String>,
    /// How long to wait for the database to report its URL, in milliseconds.
    start_timeout: u64,
    /// Whether standard output and standard error go to files.
    redirect_stdio: bool,
}

/// What the file with the listen URL says of the start of the database.
#[derive(Clone, Debug, PartialEq, Eq)]
pub enum ListenUrlCheck {
    /// The URL is not there yet, or not complete.
    NotYet,
    /// The database has exited before it reported a URL.
    Exited,
    /// The database listens on this URL.
    Ready(String),
}

/// The path of a file in a directory.
pub uninterp spec fn path_joined(dir: Seq<char>, file: Seq<char>) -> Seq<char>;

/// A text without the white space at its end.
pub uninterp spec fn trim_end_of(text: Seq<char>) -> Seq<char>;

/// The path of a file in a directory.
///
/// Calls `std::path::Path::join`, and `Path::to_string_lossy` on the
/// result, which loses nothing for two strings.
#[verifier::external_body]
fn path_join(dir: &str, file: &str) -> (res: String)
    ensures
        res@ == path_joined(dir@, file@),
{
    std::path::Path::new(dir).join(file).to_string_lossy().into_owned()
}

/// The text without the white space at its end.
///
/// Calls `str::trim_end`.
#[verifier::external_body]
fn trim_end_text(text: &str) -> (res: String)
    ensures
        res@ == trim_end_of(text@),
{
    text.trim_end().to_owned()
}

/// The first `n` arguments, with a space between each two.
pub open spec fn joined(args: Seq<Seq<char>>, n: int) -> Seq<char>
    decreases n,
{
    if n <= 0 {
        Seq::empty()
    } else if n == 1 {
        args[0]
    } else {
        joined(args, n - 1) + " "@ + args[n - 1]
    }
}

/// The arguments that every command line starts with, after the command.
pub open spec fn fixed_args() -> Seq<Seq<char>> {
    seq!["start-single-node"@, "--insecure"@, "--listen-addr=127.0.0.1:0"@, "--http-addr=:0"@]
}

impl CockroachStarterBuilder {
    /// The command and the arguments added so far.
    pub closed spec fn spec_args(&self) -> Seq<Seq<char>> {
        texts(self.args@)
    }

    pub closed spec fn spec_store_dir(&self) -> Option<Seq<char>> {
        match self.store_dir {
            Some(dir) => Some(dir@),
            None => None,
        }
    }

    pub closed spec fn spec_start_timeout(&self) -> u64 {
        self.start_timeout
    }

    pub closed spec fn spec_redirect_stdio(&self) -> bool {
        self.redirect_stdio
    }

    /// A builder for the command `cockroach`.
    pub fn new() -> (res: CockroachStarterBuilder)
        ensures
            res.spec_args() == seq!["cockroach"@] + fixed_args(),
            res.spec_store_dir() is None,
            res.spec_start_timeout() == COCKROACHDB_START_TIMEOUT_DEFAULT,
            !res.spec_redirect_stdio(),
    {
        CockroachStarterBuilder::new_with_cmd("cockroach")
    }

    /// A builder for the given command.
    pub fn new_with_cmd(cmd: &str) -> (res: CockroachStarterBuilder)
        ensures
            res.spec_args() == seq![cmd@] + fixed_args(),
            res.spec_store_dir() is None,
            res.spec_start_timeout() == COCKROACHDB_START_TIMEOUT_DEFAULT,
            !res.spec_redirect_stdio(),
    {
        let mut args: Vec<String> = Vec::new();
        args.push(String::from_str(cmd));
        let mut builder = CockroachStarterBuilder {
            store_dir: None,
            args,
            start_timeout: COCKROACHDB_START_TIMEOUT_DEFAULT,
            redirect_stdio: false,
        };
        builder.arg("start-single-node");
        builder.arg("--insecure");
        builder.arg("--listen-addr=127.0.0.1:0");
        builder.arg("--http-addr=:0");
        assert(builder.spec_args() =~= seq![cmd@] + fixed_args());
        builder
    }

    /// Sends standard output and standard error to files in the temporary
    /// directory.
    pub fn redirect_stdio_to_files(&mut self)
        ensures
            final(self).spec_redirect_stdio(),
            final(self).spec_args() == old(self).spec_args(),
            final(self).spec_store_dir() == old(self).spec_store_dir(),
            final(self).spec_start_timeout() == old(self).spec_start_timeout(),
    {
        self.redirect_stdio = true;
    }

    /// Sets how long to wait for the database to report its URL, in
    /// milliseconds.
    pub fn start_timeout(&mut self, duration: u64)
        ensures
            final(self).spec_start_timeout() == duration,
            final(self).spec_args() == old(self).spec_args(),
            final(self).spec_store_dir() == old(self).spec_store_dir(),
            final(self).spec_redirect_stdio() == old(self).spec_redirect_stdio(),
    {
        self.start_timeout = duration;
    }

    /// Sets where the database stores its data. Without it, the data goes
    /// into the temporary directory.
    pub fn store_dir(self, store_dir: &str) -> (res: CockroachStarterBuilder)
        ensures
            res.spec_store_dir() == Some(store_dir@),
            res.spec_args() == self.spec_args(),
            res.spec_start_timeout() == self.spec_start_timeout(),
            res.spec_redirect_stdio() == self.spec_redirect_stdio(),
    {
        CockroachStarterBuilder {
            store_dir: Some(String::from_str(store_dir)),
            args: self.args,
            start_timeout: self.start_timeout,
            redirect_stdio: self.redirect_stdio,
        }
    }

    /// The plan for a start with the given temporary directory: the data
    /// goes where the caller said or into `data` in the directory, and the
    /// URL file is `listen-url` in the directory.
    pub fn build(self, temp_dir: &str) -> (res: CockroachStarter)
        ensures
            res.spec_temp_dir() == temp_dir@,
            res.spec_listen_url_file() == path_joined(temp_dir@, "listen-url"@),
            res.spec_args() == self.spec_args() + seq![
                "--store"@,
                match self.spec_store_dir() {
                    Some(dir) => dir,
                    None => path_joined(temp_dir@, "data"@),
                },
                "--listening-url-file"@,
                path_joined(temp_dir@, "listen-url"@),
            ],
            res.spec_start_timeout() == self.spec_start_timeout(),
            res.spec_redirect_stdio() == self.spec_redirect_stdio(),
    {
        let mut builder = self;
        let store_dir = match &builder.store_dir {
            Some(dir) => dir.clone(),
            None => CockroachStarterBuilder::temp_path(temp_dir, "data"),
        };
        let listen_url_file = CockroachStarterBuilder::temp_path(temp_dir, "listen-url");
        builder.arg("--store");
        builder.arg(store_dir.as_str());
        builder.arg("--listening-url-file");
        builder.arg(listen_url_file.as_str());
        assert(builder.spec_args() =~= self.spec_args() + seq![
            "--store"@,
            store_dir@,
            "--listening-url-file"@,
            listen_url_file@,
        ]);
        CockroachStarter {
            temp_dir: String::from_str(temp_dir),
            listen_url_file,
            args: builder.args,
            start_timeout: builder.start_timeout,
            redirect_stdio: builder.redirect_stdio,
        }
    }

    /// Adds an argument to the command line.
    fn arg(&mut self, arg: &str)
        ensures
            final(self).spec_args() == old(self).spec_args().push(arg@),
            final(self).spec_store_dir() == old(self).spec_store_dir(),
            final(self).spec_start_timeout() == old(self).spec_start_timeout(),
            final(self).spec_redirect_stdio() == old(self).spec_redirect_stdio(),
    {
        self.args.push(String::from_str(arg));
        assert(texts(self.args@) =~= texts(old(self).args@).push(arg@));
    }

    /// The path of a file in the temporary directory.
    fn temp_path(tempdir: &str, file: &str) -> (res: String)
        ensures
            res@ == path_joined(tempdir@, file@),
    {
        path_join(tempdir, file)
    }
}

impl CockroachStarter {
    /// The command and its arguments.
    pub closed spec fn spec_args(&self) -> Seq<Seq<char>> {
        texts(self.args@)
    }

    pub closed spec fn spec_temp_dir(&self) -> Seq<char> {
        self.temp_dir@
    }

    pub closed spec fn spec_listen_url_file(&self) -> Seq<char> {
        self.listen_url_file@
    }

    pub closed spec fn spec_start_timeout(&self) -> u64 {
        self.start_timeout
    }

    pub closed spec fn spec_redirect_stdio(&self) -> bool {
        self.redirect_stdio
    }

    /// The command line, for people to read.
    #[verifier::loop_isolation(false)]
    pub fn cmdline(&self) -> (res: String)
        ensures
            res@ == joined(self.spec_args(), self.spec_args().len() as int),
    {
        let mut out = String::new();
        let mut i: usize = 0;
        while i < self.args.len()
            invariant
                i <= self.args.len(),
                out@ == joined(texts(self.args@), i as int),
            decreases self.args.len() - i,
        {
            if i > 0 {
                out = out.concat(" ");
            }
            out = out.concat(self.args[i].as_str());
            proof {
                assert(texts(self.args@)[i as int] == self.args@[i as int]@);
                if i == 0 {
                    assert(Seq::<char>::empty() + self.args@[0]@ =~= self.args@[0]@);
                }
            }
            i += 1;
        }
        out
    }

    /// The command and its arguments.
    pub fn args(&self) -> (res: &Vec<String>)
        ensures
            texts(res@) == self.spec_args(),
    {
        &self.args
    }

    /// The temporary directory of this start.
    pub fn temp_dir(&self) -> (res: &str)
        ensures
            res@ == self.spec_temp_dir(),
    {
        self.temp_dir.as_str()
    }

    /// The file in which the database reports the URL that it listens on.
    pub fn listen_url_file(&self) -> (res: &str)
        ensures
            res@ == self.spec_listen_url_file(),
    {
        self.listen_url_file.as_str()
    }

    /// How long to wait for the database to report its URL, in
    /// milliseconds.
    pub fn start_timeout(&self) -> (res: u64)
        ensures
            res == self.spec_start_timeout(),
    {
        self.start_timeout
    }

    /// Whether standard output and standard error go to files.
    pub fn redirect_stdio(&self) -> (res: bool)
        ensures
            res == self.spec_redirect_stdio(),
    {
        self.redirect_stdio
    }
}

/// Whether the text holds a line feed.
#[verifier::loop_isolation(false)]
fn has_line_feed(text: &str) -> (res: bool)
    ensures
        res == text@.contains('\n'),
{
    let n = text.unicode_len();
    let mut i: usize = 0;
    while i < n
        invariant
            i <= n,
            n == text@.len(),
            forall|j: int| 0 <= j < i ==> text@[j] != '\n',
        decreases n - i,
    {
        if text.get_char(i) == '\n' {
            return true;
        }
        i += 1;
    }
    false
}

/// What to make of one look at the file with the listen URL. A database
/// that has exited will not report anymore. The URL is complete once the
/// file holds a line feed: it is the content without the white space at
/// its end.
pub fn check_listen_url(exited: bool, contents: Option<&str>) -> (res: ListenUrlCheck)
    ensures
        exited ==> res is Exited,
        !exited && (contents is None || !contents->0@.contains('\n')) ==> res is NotYet,
        !exited && contents is Some && contents->0@.contains('\n') ==> res is Ready && res->Ready_0@
            == trim_end_of(contents->0@),
{
    if exited {
        return ListenUrlCheck::Exited;
    }
    match contents {
        Some(listen_url) => {
            if has_line_feed(listen_url) {
                ListenUrlCheck::Ready(trim_end_text(listen_url))
            } else {
                ListenUrlCheck::NotYet
            }
        },
        None => ListenUrlCheck::NotYet,
    }
}

} // verus!
