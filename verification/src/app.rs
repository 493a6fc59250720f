use vstd::prelude::*;

verus! {

use crate::cli::{spec_parse, Cli, Command, CommandModel};
use crate::cloud_client::{download_effect, listing_matches, upload_effect, CloudClient};
use crate::errors::{spec_message, AppError};
use crate::tui::WorkMode;
use crate::utilities::strings::push_char;

/// The local side of the workspace: whatever lists the entries of a local
/// directory. The executor depends only on this contract; the session injects
/// a lister that walks the real directory, and tests inject a fixed one.
pub trait LocalLister: Sized {
    /// The directory listing the local side shows for a path. A lister that
    /// keeps no model (the real directory walk) leaves the default, about
    /// which nothing is ever proved.
    open spec fn listing(&self, path: Seq<char>) -> Seq<Seq<char>> {
        Seq::empty()
    }

    /// Lists the entries directly under `path`, sub-directories with a
    /// trailing separator. The call may refresh what the lister sees; the
    /// result is the listing it sees afterward.
    fn get_path_entries(&mut self, path: &String) -> (r: Vec<String>)
        ensures
            r.deep_view() == final(self).listing(path@),
    ;
}

/// A local lister showing one fixed set of entries for every path: the test
/// double for the local side.
pub struct InMemoryDir {
    entries: Vec<String>,
}

impl InMemoryDir {
    /// A lister that shows exactly the given entries.
    pub fn new(entries: Vec<String>) -> (r: InMemoryDir)
        ensures
            r.fixed_entries() == entries.deep_view(),
    {
        InMemoryDir { entries }
    }

    /// The entries this lister shows.
    pub closed spec fn fixed_entries(&self) -> Seq<Seq<char>> {
        self.entries.deep_view()
    }
}

impl LocalLister for InMemoryDir {
    closed spec fn listing(&self, path: Seq<char>) -> Seq<Seq<char>> {
        self.fixed_entries()
    }

    fn get_path_entries(&mut self, path: &String) -> (r: Vec<String>) {
        let mut out: Vec<String> = Vec::new();
        let n = self.entries.len();
        let mut i: usize = 0;
        while i < n
            invariant
                i <= n,
                n == self.entries@.len(),
                out.deep_view() == self.entries.deep_view().take(i as int),
            decreases n - i,
        {
            let ghost prev = out.deep_view();
            let e = self.entries[i].clone();
            out.push(e);
            i = i + 1;
            proof {
                assert(out.deep_view() =~= prev.push(e@));
                assert(e@ == self.entries.deep_view()[i as int - 1]);
                assert(out.deep_view() =~= self.entries.deep_view().take(i as int));
            }
        }
        proof {
            assert(self.entries.deep_view().take(n as int) =~= self.entries.deep_view());
        }
        out
    }
}

/// The executor's cached view of the two workspaces: the last-known entry
/// lists of one local and one remote directory, and the paths they were taken
/// from. It is replaced wholesale on refresh, never merged.
pub struct WorkspaceData {
    pub local_path: String,
    pub local_entries: Vec<String>,
    pub cloud_path: String,
    pub cloud_entries: Vec<String>,
}

impl WorkspaceData {
    /// The cache for a freshly started session: the given starting local
    /// directory, the root remote path, and no entries yet.
    pub fn new(local_path: String) -> (r: Self)
        ensures
            r.local_path == local_path,
            r.local_entries@ == Seq::<String>::empty(),
            r.cloud_path@ == "//"@,
            r.cloud_entries@ == Seq::<String>::empty(),
    {
        WorkspaceData {
            local_path,
            local_entries: Vec::new(),
            cloud_path: String::from_str("//"),
            cloud_entries: Vec::new(),
        }
    }
}

impl Default for WorkspaceData {
    /// The cache before any starting directory is known: an empty local path
    /// stands in until the session resolves the real one.
    fn default() -> (r: Self)
        ensures
            r.local_path@ == Seq::<char>::empty(),
            r.local_entries@ == Seq::<String>::empty(),
            r.cloud_path@ == "//"@,
            r.cloud_entries@ == Seq::<String>::empty(),
    {
        WorkspaceData::new(String::new())
    }
}

/// The command executor: it owns the input line under composition, the mode,
/// the execution log, the workspace cache, and the injected storage backend
/// and local lister; it dispatches parsed commands and refreshes the cache.
pub struct App<C: CloudClient, L: LocalLister> {
    pub input_command: String,
    pub cursor_position: usize,
    pub work_mode: WorkMode,
    pub logs: Vec<String>,
    pub workspace_data: WorkspaceData,
    pub cloud_client: C,
    pub local_lister: L,
}

impl<C: CloudClient, L: LocalLister> App<C, L> {
    /// The cursor never leaves the input line.
    pub open spec fn wf(&self) -> bool {
        self.cursor_position <= self.input_command@.len()
    }

    /// The workspace cache agrees with what the backend and the local lister
    /// currently show for the cached paths.
    pub open spec fn cache_synced(&self) -> bool {
        listing_matches(
            self.cloud_client.cloud(),
            self.workspace_data.cloud_path@,
            self.workspace_data.cloud_entries.deep_view(),
        ) && self.workspace_data.local_entries.deep_view() == self.local_lister.listing(
            self.workspace_data.local_path@,
        )
    }

    /// Everything outside the input widget: what the line-editing methods
    /// must leave alone.
    pub open spec fn same_outside_widget(&self, other: &Self) -> bool {
        self.work_mode == other.work_mode && self.logs == other.logs && self.workspace_data
            == other.workspace_data && self.cloud_client == other.cloud_client
            && self.local_lister == other.local_lister
    }

    /// A fresh session around the injected backend and lister, reading at
    /// the given local directory.
    pub fn new(cloud_client: C, local_lister: L, local_path: String) -> (r: Self)
        ensures
            r.wf(),
            r.input_command@ == Seq::<char>::empty(),
            r.cursor_position == 0,
            r.work_mode == WorkMode::Read,
            r.logs@ == Seq::<String>::empty(),
            r.workspace_data.local_path == local_path,
            r.workspace_data.local_entries@ == Seq::<String>::empty(),
            r.workspace_data.cloud_path@ == "//"@,
            r.workspace_data.cloud_entries@ == Seq::<String>::empty(),
            r.cloud_client == cloud_client,
            r.local_lister == local_lister,
    {
        App {
            input_command: String::new(),
            cursor_position: 0,
            work_mode: WorkMode::Read,
            logs: Vec::new(),
            workspace_data: WorkspaceData::new(local_path),
            cloud_client,
            local_lister,
        }
    }

    /// Clamps a prospective cursor position onto the input line.
    pub fn clamp_cursor(&self, new_cursor_pos: usize) -> (r: usize)
        ensures
            self.input_command@.len() <= usize::MAX,
            new_cursor_pos <= self.input_command@.len() ==> r == new_cursor_pos,
            new_cursor_pos > self.input_command@.len() ==> r == self.input_command@.len(),
    {
        let n = self.input_command.as_str().unicode_len();
        if new_cursor_pos <= n {
            new_cursor_pos
        } else {
            n
        }
    }

    /// Moves the cursor one place left, stopping at the start of the line.
    pub fn move_cursor_left(&mut self)
        requires
            old(self).wf(),
        ensures
            final(self).wf(),
            final(self).input_command == old(self).input_command,
            final(self).cursor_position == if old(self).cursor_position > 0 {
                old(self).cursor_position - 1
            } else {
                0int
            },
            final(self).same_outside_widget(old(self)),
    {
        let moved = if self.cursor_position > 0 {
            self.cursor_position - 1
        } else {
            0
        };
        self.cursor_position = self.clamp_cursor(moved);
    }

    /// Moves the cursor one place right, stopping at the end of the line.
    pub fn move_cursor_right(&mut self)
        requires
            old(self).wf(),
        ensures
            final(self).wf(),
            final(self).input_command == old(self).input_command,
            final(self).cursor_position == if old(self).cursor_position + 1
                <= old(self).input_command@.len() {
                old(self).cursor_position + 1
            } else {
                old(self).input_command@.len() as int
            },
            final(self).same_outside_widget(old(self)),
    {
        let moved = if self.cursor_position < usize::MAX {
            self.cursor_position + 1
        } else {
            self.cursor_position
        };
        self.cursor_position = self.clamp_cursor(moved);
    }

    /// Inserts a character at the cursor and moves the cursor past it.
    pub fn enter_char(&mut self, new_char: char)
        requires
            old(self).wf(),
        ensures
            final(self).wf(),
            final(self).input_command@ == old(self).input_command@.insert(
                old(self).cursor_position as int,
                new_char,
            ),
            final(self).cursor_position == old(self).cursor_position + 1,
            final(self).same_outside_widget(old(self)),
    {
        let pos = self.cursor_position;
        let n = self.input_command.as_str().unicode_len();
        let mut rebuilt = self.input_command.as_str().substring_char(0, pos).to_owned();
        push_char(&mut rebuilt, new_char);
        rebuilt.append(self.input_command.as_str().substring_char(pos, n));
        proof {
            assert(rebuilt@ =~= old(self).input_command@.insert(
                old(self).cursor_position as int,
                new_char,
            ));
        }
        self.input_command = rebuilt;
        self.move_cursor_right();
    }

    /// Removes the character left of the cursor, if any, and moves the
    /// cursor onto its place.
    pub fn delete_char(&mut self)
        requires
            old(self).wf(),
        ensures
            final(self).wf(),
            old(self).cursor_position > 0 ==> final(self).input_command@ == old(self).input_command@.remove(old(self).cursor_position - 1) && final(self).cursor_position
                == old(self).cursor_position - 1,
            old(self).cursor_position == 0 ==> *final(self) == *old(self),
            final(self).same_outside_widget(old(self)),
    {
        let is_not_cursor_leftmost = self.cursor_position != 0;
        if is_not_cursor_leftmost {
            let current_index = self.cursor_position;
            let n = self.input_command.as_str().unicode_len();
            let mut rebuilt = self.input_command.as_str().substring_char(
                0,
                current_index - 1,
            ).to_owned();
            rebuilt.append(self.input_command.as_str().substring_char(current_index, n));
            proof {
                assert(rebuilt@ =~= old(self).input_command@.remove(
                    old(self).cursor_position - 1,
                ));
            }
            self.move_cursor_left();
            self.input_command = rebuilt;
        }
    }

    /// Puts the cursor back at the start of the line.
    pub fn reset_cursor(&mut self)
        ensures
            final(self).wf(),
            final(self).input_command == old(self).input_command,
            final(self).cursor_position == 0,
            final(self).same_outside_widget(old(self)),
    {
        self.cursor_position = 0;
    }

    /// Refreshes the workspace cache wholesale: first the local listing,
    /// then the remote one; a remote failure leaves the remote entries
    /// untouched and surfaces as the call's error.
    pub fn update_workspace_data(&mut self) -> (r: Result<(), AppError>)
        ensures
            final(self).input_command == old(self).input_command,
            final(self).cursor_position == old(self).cursor_position,
            final(self).work_mode == old(self).work_mode,
            final(self).logs == old(self).logs,
            final(self).workspace_data.local_path == old(self).workspace_data.local_path,
            final(self).workspace_data.cloud_path == old(self).workspace_data.cloud_path,
            final(self).workspace_data.local_entries.deep_view() == final(self).local_lister.listing(
                final(self).workspace_data.local_path@,
            ),
            final(self).cloud_client.cloud() == old(self).cloud_client.cloud(),
            final(self).cloud_client.local() == old(self).cloud_client.local(),
            r is Ok ==> listing_matches(
                final(self).cloud_client.cloud(),
                final(self).workspace_data.cloud_path@,
                final(self).workspace_data.cloud_entries.deep_view(),
            ),
            r is Err ==> final(self).workspace_data.cloud_entries == old(self).workspace_data.cloud_entries,
    {
        let local = self.local_lister.get_path_entries(&self.workspace_data.local_path);
        self.workspace_data.local_entries = local;
        match self.cloud_client.list_entries(&self.workspace_data.cloud_path) {
            Result::Ok(entries) => {
                self.workspace_data.cloud_entries = entries;
                Result::Ok(())
            },
            Result::Err(e) => Result::Err(e),
        }
    }

    /// Dispatches one parsed command to the storage capability, then
    /// refreshes the workspace cache; a refresh failure is the dispatch's
    /// failure even when the command itself succeeded.
    pub fn execute_command(&mut self, cli: Cli) -> (r: Result<(), AppError>)
        ensures
            final(self).input_command == old(self).input_command,
            final(self).cursor_position == old(self).cursor_position,
            final(self).work_mode == old(self).work_mode,
            final(self).workspace_data.local_path == old(self).workspace_data.local_path,
            final(self).workspace_data.cloud_path == old(self).workspace_data.cloud_path,
            cli.command matches Command::Clear ==> final(self).logs@ == Seq::<String>::empty(),
            !(cli.command matches Command::Clear) ==> final(self).logs == old(self).logs,
            cli.command matches Command::List ==> final(self).cloud_client.cloud() == old(self).cloud_client.cloud() && final(self).cloud_client.local() == old(self).cloud_client.local(),
            cli.command matches Command::Clear ==> final(self).cloud_client.cloud() == old(self).cloud_client.cloud() && final(self).cloud_client.local() == old(self).cloud_client.local(),
            r is Err ==> final(self).workspace_data.cloud_entries == old(self).workspace_data.cloud_entries,
            r is Err ==> (final(self).workspace_data == old(self).workspace_data || final(self).workspace_data.local_entries.deep_view() == final(self).local_lister.listing(
                old(self).workspace_data.local_path@,
            )),
            r is Ok ==> final(self).cache_synced(),
            r is Ok ==> match cli.command@ {
                CommandModel::Download { from_path, to_path } => old(self).cloud_client.cloud().contains_key(from_path) && final(self).cloud_client.cloud()
                    == old(self).cloud_client.cloud() && final(self).cloud_client.local()
                    == download_effect(
                    old(self).cloud_client.cloud(),
                    old(self).cloud_client.local(),
                    from_path,
                    to_path,
                ),
                CommandModel::Upload { from_path, to_path } => old(self).cloud_client.local().contains_key(from_path) && final(self).cloud_client.local()
                    == old(self).cloud_client.local() && final(self).cloud_client.cloud()
                    == upload_effect(
                    old(self).cloud_client.cloud(),
                    old(self).cloud_client.local(),
                    from_path,
                    to_path,
                ),
                CommandModel::Delete { path } => final(self).cloud_client.cloud() == old(self).cloud_client.cloud().remove(path) && final(self).cloud_client.local() == old(self).cloud_client.local(),
                CommandModel::List => final(self).cloud_client.cloud() == old(self).cloud_client.cloud() && final(self).cloud_client.local() == old(self).cloud_client.local(),
                CommandModel::Clear => final(self).cloud_client.cloud() == old(self).cloud_client.cloud() && final(self).cloud_client.local() == old(self).cloud_client.local(),
            },
    {
        match cli.command {
            Command::Download { from_path, to_path } => {
                match self.cloud_client.download(&from_path, &to_path) {
                    Result::Ok(()) => {},
                    Result::Err(e) => {
                        return Result::Err(e);
                    },
                }
            },
            Command::Upload { from_path, to_path } => {
                match self.cloud_client.upload(&from_path, &to_path) {
                    Result::Ok(()) => {},
                    Result::Err(e) => {
                        return Result::Err(e);
                    },
                }
            },
            Command::Delete { path } => {
                match self.cloud_client.delete(&path) {
                    Result::Ok(()) => {},
                    Result::Err(e) => {
                        return Result::Err(e);
                    },
                }
            },
            Command::List => {},
            Command::Clear => {
                self.logs.clear();
            },
        }
        match self.update_workspace_data() {
            Result::Ok(()) => Result::Ok(()),
            Result::Err(e) => Result::Err(e),
        }
    }

    /// Takes the composed line: echoes it into the log, parses it, dispatches
    /// the command (or logs that the line did not parse, or the dispatch
    /// error's message), and always clears the input line and cursor.
    pub fn submit_command(&mut self)
        requires
            old(self).wf(),
        ensures
            final(self).wf(),
            final(self).input_command@ == Seq::<char>::empty(),
            final(self).cursor_position == 0,
            final(self).work_mode == old(self).work_mode,
            final(self).workspace_data.local_path == old(self).workspace_data.local_path,
            final(self).workspace_data.cloud_path == old(self).workspace_data.cloud_path,
            spec_parse(old(self).input_command@) is None ==> (exists|m: String|
                m@ == spec_message(&AppError::ParseCommand) && final(self).logs@ == old(self).logs@.push(old(self).input_command).push(m)),
            spec_parse(old(self).input_command@) is None ==> final(self).cloud_client == old(self).cloud_client,
            spec_parse(old(self).input_command@) matches Some(c) ==> {
                ||| (!(c matches CommandModel::Clear) && final(self).logs@ == old(self).logs@.push(
                    old(self).input_command,
                ) && final(self).cache_synced())
                ||| (!(c matches CommandModel::Clear) && (exists|m: String, e: AppError|
                    m@ == spec_message(&e) && final(self).logs@ == old(self).logs@.push(
                        old(self).input_command,
                    ).push(m)))
                ||| (c matches CommandModel::Clear && final(self).logs@ == Seq::<String>::empty()
                    && final(self).cache_synced())
                ||| (c matches CommandModel::Clear && (exists|m: String, e: AppError|
                    m@ == spec_message(&e) && final(self).logs@ == seq![m]))
            },
    {
        self.logs.push(self.input_command.clone());
        match Cli::parse_str(self.input_command.as_str()) {
            Result::Ok(cli) => {
                match self.execute_command(cli) {
                    Result::Ok(()) => {},
                    Result::Err(error) => {
                        let m = error.message();
                        self.logs.push(m);
                    },
                }
            },
            Result::Err(_) => {
                self.logs.push(String::from_str("unable to parse command"));
            },
        }
        self.input_command = String::new();
        self.reset_cursor();
    }
}

} // verus!
