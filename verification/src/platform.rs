//! Which shell the user works in. The answer is for display only; it
//! changes nothing in what is asked of the model.

use crate::config::optional_text_view;
use crate::text::to_chars;
use vstd::prelude::*;
use vstd::string::*;

verus! {

/// The kind of system that the tool was built for.
#[derive(Debug, Clone, Copy, PartialEq, Eq, Structural)]
pub enum Platform {
    MacOs,
    /// A Unix-like system other than macOS.
    Unix,
    /// Windows; `powershell` tells whether the environment shows a
    /// PowerShell session.
    Windows { powershell: bool },
}

/// Length of what follows the last `/` in `path`: the length of `path`
/// where it holds none.
pub open spec fn name_length(path: Seq<char>) -> nat
    decreases path.len(),
{
    if path.len() == 0 || path.last() == '/' {
        0
    } else {
        1 + name_length(path.drop_last())
    }
}

/// What follows the last `/` in `path`: the whole of `path` where it holds
/// none, nothing where it ends with one.
pub open spec fn file_name(path: Seq<char>) -> Seq<char> {
    path.skip(path.len() - name_length(path))
}

/// The shell that is assumed where the environment names none.
pub open spec fn fallback_shell(platform: Platform) -> Seq<char> {
    match platform {
        Platform::MacOs => "zsh"@,
        Platform::Unix => "bash"@,
        Platform::Windows { powershell: true } => "powershell"@,
        Platform::Windows { powershell: false } => "cmd"@,
    }
}

/// The shell's name, given the path that the environment names for it, if
/// any.
pub open spec fn detected_shell(shell_path: Option<Seq<char>>, platform: Platform) -> Seq<char> {
    match shell_path {
        Some(path) => file_name(path),
        None => fallback_shell(platform),
    }
}

/// The name taken from a path holds no `/`, and stands in the path behind a
/// `/` or at its start.
pub proof fn lemma_name_length(path: Seq<char>)
    ensures
        name_length(path) <= path.len(),
        !file_name(path).contains('/'),
        name_length(path) < path.len() ==> path[path.len() - name_length(path) - 1] == '/',
    decreases path.len(),
{
    if !(path.len() == 0 || path.last() == '/') {
        let front = path.drop_last();
        lemma_name_length(front);
        let name = file_name(path);
        assert forall|i: int| 0 <= i < name.len() implies name[i] != '/' by {
            if i < name.len() - 1 {
                assert(name[i] == file_name(front)[i]);
            }
        }
        if name_length(path) < path.len() {
            assert(path[path.len() - name_length(path) - 1] == front[front.len() - name_length(
                front,
            ) - 1]);
        }
    }
}

/// `k` characters without a `/` at the end of `path`, behind a `/` or the
/// start of `path`, are the name in `path`.
pub proof fn lemma_name_length_is(path: Seq<char>, k: int)
    requires
        0 <= k <= path.len(),
        forall|i: int| path.len() - k <= i < path.len() ==> #[trigger] path[i] != '/',
        k < path.len() ==> path[path.len() - k - 1] == '/',
    ensures
        name_length(path) == k,
    decreases path.len(),
{
    if k > 0 {
        let front = path.drop_last();
        assert(path[path.len() - 1] != '/');
        assert forall|i: int| front.len() - (k - 1) <= i < front.len() implies #[trigger] front[i]
            != '/' by {
            assert(front[i] == path[i]);
        }
        if k - 1 < front.len() {
            assert(front[front.len() - (k - 1) - 1] == path[path.len() - k - 1]);
        }
        lemma_name_length_is(front, k - 1);
    }
}

/// The name of the user's shell. `shell_path` is the path that the
/// environment names for it, if it names one.
///
/// A path gives its last component, even an empty one. Without a path the
/// answer goes by the platform: `zsh` on macOS, `bash` on another Unix,
/// and on Windows `powershell` in a PowerShell session and `cmd` outside
/// one.
pub fn detect_shell(shell_path: Option<String>, platform: Platform) -> (shell: String)
    ensures
        shell@ == detected_shell(optional_text_view(shell_path), platform),
{
    match shell_path {
        Some(path) => {
            let chars = to_chars(path.as_str());
            let n = chars.len();
            let mut start = n;
            while start > 0 && chars[start - 1] != '/'
                invariant
                    start <= n == chars.len(),
                    forall|i: int| start <= i < n ==> #[trigger] chars@[i] != '/',
                decreases start,
            {
                start -= 1;
            }
            proof {
                lemma_name_length_is(chars@, n - start);
            }
            String::from_str(path.as_str().substring_char(start, n))
        },
        None => {
            match platform {
                Platform::MacOs => String::from_str("zsh"),
                Platform::Unix => String::from_str("bash"),
                Platform::Windows { powershell: true } => String::from_str("powershell"),
                Platform::Windows { powershell: false } => String::from_str("cmd"),
            }
        },
    }
}

} // verus!
