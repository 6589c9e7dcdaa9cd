use vstd::prelude::*;

verus! {

/// The code editor in which source code todos are opened.
#[derive(Debug, Clone, PartialEq, Eq)]
pub enum CodeEditor {
    VSCode,
    Zed,
    Custom { name: String, command: String },
}

/// The text of a string slice split at every space, as `str::split(' ')`
/// does: the pieces between the spaces, empty ones included.
pub open spec fn split_at_spaces(s: Seq<char>) -> Seq<Seq<char>>
    decreases s.len(),
{
    if s.len() == 0 {
        seq![Seq::empty()]
    } else {
        let rest = split_at_spaces(s.drop_first());
        if s[0] == ' ' {
            seq![Seq::<char>::empty()] + rest
        } else {
            rest.update(0, seq![s[0]] + rest[0])
        }
    }
}

proof fn lemma_split_nonempty(s: Seq<char>)
    ensures
        split_at_spaces(s).len() >= 1,
    decreases s.len(),
{
    if s.len() > 0 {
        lemma_split_nonempty(s.drop_first());
    }
}

/// The program and the arguments with which a code editor opens
/// `file_location`. `code_path` is where `code` was found on the search path,
/// `zed_path` where `zed` was, and `local_zed_path` the `~/.local/bin/zed`
/// file if it exists.
pub open spec fn editor_command_line(
    editor: CodeEditor,
    file_location: Seq<char>,
    code_path: Option<Seq<char>>,
    zed_path: Option<Seq<char>>,
    local_zed_path: Option<Seq<char>>,
) -> (Seq<char>, Seq<Seq<char>>) {
    match editor {
        CodeEditor::VSCode => match code_path {
            Some(path) => (path, seq!["--goto"@, file_location]),
            None => ("flatpak"@, seq!["run"@, "com.visualstudio.code"@, "--goto"@, file_location]),
        },
        CodeEditor::Zed => match zed_path {
            Some(path) => (path, seq![file_location]),
            None => match local_zed_path {
                Some(path) => (path, seq![file_location]),
                None => ("flatpak"@, seq!["run"@, "dev.zed.Zed"@, file_location]),
            },
        },
        CodeEditor::Custom { command, .. } => {
            let pieces = split_at_spaces(command@);
            (pieces[0], pieces.drop_first().push(file_location))
        },
    }
}

/// Splits a string at every space.
fn split_spaces(s: &str) -> (r: Vec<String>)
    ensures
        r@.len() == split_at_spaces(s@).len(),
        forall|i: int| 0 <= i < r@.len() ==> (#[trigger] r@[i])@ == split_at_spaces(s@)[i],
{
    let n = s.unicode_len();
    let mut pieces: Vec<String> = Vec::new();
    let mut start: usize = 0;
    let mut k: usize = 0;
    let ghost mut done: Seq<Seq<char>> = Seq::empty();
    proof {
        assert(s@.subrange(0, s@.len() as int) =~= s@);
        lemma_split_nonempty(s@);
        let rest = split_at_spaces(s@);
        assert(s@.subrange(0, 0) + rest[0] =~= rest[0]);
        assert(rest.update(0, s@.subrange(0, 0) + rest[0]) =~= rest);
        assert(done + split_piece_from(s@, 0, 0) =~= split_at_spaces(s@));
    }
    while k < n
        invariant
            n == s@.len(),
            start <= k <= n,
            pieces@.len() == done.len(),
            forall|i: int| 0 <= i < pieces@.len() ==> (#[trigger] pieces@[i])@ == done[i],
            forall|j: int| start <= j < k ==> s@[j] != ' ',
            split_at_spaces(s@) == done + split_piece_from(s@, start as int, k as int),
        decreases n - k,
    {
        if s.get_char(k) == ' ' {
            let piece = s.substring_char(start, k).to_string();
            proof {
                lemma_split_piece_space(s@, start as int, k as int);
                done = done.push(s@.subrange(start as int, k as int));
            }
            pieces.push(piece);
            start = k + 1;
        } else {
            proof {
                lemma_split_piece_other(s@, start as int, k as int);
            }
        }
        k = k + 1;
    }
    let last = s.substring_char(start, n).to_string();
    proof {
        lemma_split_piece_end(s@, start as int);
    }
    pieces.push(last);
    proof {
        assert(split_at_spaces(s@) =~= done.push(s@.subrange(start as int, n as int)));
    }
    pieces
}

/// The pieces of `s` from character `start` on, when the characters from
/// `start` to `k` hold no space.
spec fn split_piece_from(s: Seq<char>, start: int, k: int) -> Seq<Seq<char>> {
    let rest = split_at_spaces(s.subrange(k, s.len() as int));
    rest.update(0, s.subrange(start, k) + rest[0])
}

proof fn lemma_split_piece_space(s: Seq<char>, start: int, k: int)
    requires
        0 <= start <= k < s.len(),
        s[k] == ' ',
    ensures
        split_piece_from(s, start, k) == seq![s.subrange(start, k)] + split_piece_from(
            s,
            k + 1,
            k + 1,
        ),
{
    let t = s.subrange(k, s.len() as int);
    assert(t.drop_first() =~= s.subrange(k + 1, s.len() as int));
    lemma_split_nonempty(t.drop_first());
    let rest = split_at_spaces(s.subrange(k + 1, s.len() as int));
    assert(s.subrange(k + 1, k + 1) =~= Seq::<char>::empty());
    assert(rest.update(0, Seq::<char>::empty() + rest[0]) =~= rest);
    assert(split_piece_from(s, start, k) =~= seq![s.subrange(start, k)] + split_piece_from(
        s,
        k + 1,
        k + 1,
    ));
}

proof fn lemma_split_piece_other(s: Seq<char>, start: int, k: int)
    requires
        0 <= start <= k < s.len(),
        s[k] != ' ',
    ensures
        split_piece_from(s, start, k) == split_piece_from(s, start, k + 1),
{
    let t = s.subrange(k, s.len() as int);
    assert(t.drop_first() =~= s.subrange(k + 1, s.len() as int));
    lemma_split_nonempty(t.drop_first());
    let rest1 = split_at_spaces(s.subrange(k + 1, s.len() as int));
    assert(t[0] == s[k]);
    assert(split_at_spaces(t) == rest1.update(0, seq![s[k]] + rest1[0]));
    assert(s.subrange(start, k + 1) =~= s.subrange(start, k) + seq![s[k]]);
    assert(s.subrange(start, k) + (seq![s[k]] + rest1[0]) =~= s.subrange(start, k + 1)
        + rest1[0]);
    assert(split_piece_from(s, start, k) =~= split_piece_from(s, start, k + 1));
}

proof fn lemma_split_piece_end(s: Seq<char>, start: int)
    requires
        0 <= start <= s.len(),
    ensures
        split_piece_from(s, start, s.len() as int) == seq![s.subrange(start, s.len() as int)],
{
    assert(s.subrange(s.len() as int, s.len() as int) =~= Seq::<char>::empty());
    assert(split_piece_from(s, start, s.len() as int) =~= seq![s.subrange(start, s.len() as int)]);
}

impl CodeEditor {
    pub fn label(&self) -> (r: &str)
        ensures
            r@ == (match self {
                CodeEditor::VSCode => "VS Code"@,
                CodeEditor::Zed => "Zed"@,
                CodeEditor::Custom { .. } => "Custom"@,
            }),
    {
        match self {
            CodeEditor::VSCode => "VS Code",
            CodeEditor::Zed => "Zed",
            CodeEditor::Custom { .. } => "Custom",
        }
    }

    pub fn name(&self) -> (r: &str)
        ensures
            r@ == (match self {
                CodeEditor::VSCode => "VS Code"@,
                CodeEditor::Zed => "Zed"@,
                CodeEditor::Custom { name, .. } => name@,
            }),
    {
        match self {
            CodeEditor::VSCode => "VS Code",
            CodeEditor::Zed => "Zed",
            CodeEditor::Custom { name, .. } => name.as_str(),
        }
    }

    /// The program and the arguments that open `file_location` in the editor,
    /// given where the editor programs were found.
    pub fn generate_command_line(
        &self,
        file_location: &str,
        code_path: Option<String>,
        zed_path: Option<String>,
        local_zed_path: Option<String>,
    ) -> (r: (String, Vec<String>))
        ensures
            ({
                let expected = editor_command_line(
                    *self,
                    file_location@,
                    match code_path { Some(p) => Some(p@), None => None },
                    match zed_path { Some(p) => Some(p@), None => None },
                    match local_zed_path { Some(p) => Some(p@), None => None },
                );
                &&& r.0@ == expected.0
                &&& r.1@.len() == expected.1.len()
                &&& forall|i: int| 0 <= i < r.1@.len() ==> (#[trigger] r.1@[i])@ == expected.1[i]
            }),
    {
        proof {
            reveal_strlit("--goto");
            reveal_strlit("flatpak");
            reveal_strlit("run");
            reveal_strlit("com.visualstudio.code");
            reveal_strlit("dev.zed.Zed");
        }
        let location = file_location.to_string();
        match self {
            CodeEditor::VSCode => match code_path {
                Some(path) => (path, vec!["--goto".to_string(), location]),
                None => (
                    "flatpak".to_string(),
                    vec![
                        "run".to_string(),
                        "com.visualstudio.code".to_string(),
                        "--goto".to_string(),
                        location,
                    ],
                ),
            },
            CodeEditor::Zed => match zed_path {
                Some(path) => (path, vec![location]),
                None => match local_zed_path {
                    Some(path) => (path, vec![location]),
                    None => (
                        "flatpak".to_string(),
                        vec!["run".to_string(), "dev.zed.Zed".to_string(), location],
                    ),
                },
            },
            CodeEditor::Custom { command, .. } => {
                let mut pieces = split_spaces(command.as_str());
                proof {
                    lemma_split_nonempty(command@);
                }
                let program = pieces.remove(0);
                pieces.push(location);
                (program, pieces)
            },
        }
    }
}

/// Where a synchronization server listens, and its password.
#[derive(Debug, Clone, PartialEq, Eq)]
pub struct ServerConfig {
    pub hostname: String,
    pub port: usize,
    pub password: String,
}

/// The state of the connection to a synchronization server.
#[derive(Debug, Clone, PartialEq, Eq)]
pub enum ServerConnectionStatus {
    Disconected,
    Connected,
    Connecting,
    Error(String),
}

/// Where the database is synchronized to: a file (not chosen yet) or a server.
#[derive(Debug, Clone, PartialEq, Eq)]
pub enum SynchronizationSetting {
    Filepath(Option<String>),
    Server(ServerConfig),
}

/// The label of the chosen code editor, `None` when there is none.
pub fn code_editor_label(code_editor: Option<CodeEditor>) -> (r: String)
    ensures
        r@ == match code_editor {
            Some(CodeEditor::VSCode) => "VS Code"@,
            Some(CodeEditor::Zed) => "Zed"@,
            Some(CodeEditor::Custom { .. }) => "Custom"@,
            None => "None"@,
        },
{
    match code_editor {
        Some(code_editor) => String::from_str(code_editor.label()),
        None => String::from_str("None"),
    }
}

} // verus!
