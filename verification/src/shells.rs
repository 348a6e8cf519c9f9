//! The shells that can call this program: the snippet that defines the alias
//! in each of them, and where each keeps its history.

use crate::text::{equal, joined};
use vstd::prelude::*;
use vstd::string::StringExecFns;

verus! {

/// A shell that this program can be called from.
pub trait Shell {
    /// The snippet that defines the alias `alias_name`.
    spec fn alias_text(&self, alias_name: Seq<char>) -> Seq<char>;

    /// The name of the environment variable that says where the history is.
    spec fn spec_history_variable(&self) -> Seq<char>;

    /// The history file of the shell, as it is called inside the home
    /// directory.
    spec fn spec_default_history_file(&self) -> Seq<char>;

    /// The history file that the value `value` of the environment variable
    /// stands for.
    spec fn configured_history_file(&self, value: Seq<char>) -> Seq<char>;

    /// The history file: the one that the environment variable stands for
    /// where it is set, else the default file inside the home directory
    /// where that is known, else the default file by its bare name.
    open spec fn history_file(
        &self,
        configured: Option<Seq<char>>,
        in_home: Option<Seq<char>>,
    ) -> Seq<char> {
        match configured {
            Some(value) => self.configured_history_file(value),
            None => match in_home {
                Some(file) => file,
                None => self.spec_default_history_file(),
            },
        }
    }

    /// The snippet that, read by the shell, defines the alias `alias_name`.
    fn app_alias(&self, alias_name: &str) -> (snippet: String)
        ensures
            snippet@ == self.alias_text(alias_name@),
    ;

    /// The name of the environment variable that says where the history is.
    fn history_variable(&self) -> (variable: &'static str)
        ensures
            variable@ == self.spec_history_variable(),
    ;

    /// The history file of the shell, as it is called inside the home
    /// directory.
    fn default_history_file(&self) -> (file: &'static str)
        ensures
            file@ == self.spec_default_history_file(),
    ;

    /// The history file of the shell. `configured` is the value of the
    /// environment variable of `history_variable`, where it is set;
    /// `in_home` is the path of `default_history_file` inside the home
    /// directory, where there is a home directory.
    fn get_history_file_name(&self, configured: Option<String>, in_home: Option<String>) -> (file:
        String)
        ensures
            file@ == self.history_file(configured.deep_view(), in_home.deep_view()),
    ;
}

/// The three parts of a snippet with `alias_name` between them.
fn snippet_of(head: &str, middle: &str, tail: &str, alias_name: &str) -> (snippet: String)
    ensures
        snippet@ == head@ + alias_name@ + middle@ + alias_name@ + tail@,
{
    let mut snippet = joined(head, alias_name);
    snippet.append(middle);
    snippet.append(alias_name);
    snippet.append(tail);
    snippet
}

/// The shell `bash`.
#[derive(Debug)]
pub struct Bash;

/// What the snippet for `bash` holds before the first mention of the alias.
pub const BASH_HEAD: &'static str = "\nfunction ";

/// What the snippet for `bash` holds between the two mentions of the alias.
pub const BASH_MIDDLE: &'static str = " () {\n    TF_PYTHONIOENCODING=$PYTHONIOENCODING;\n    export TF_SHELL=bash;\n    export TF_ALIAS=";

/// What the snippet for `bash` holds behind the second mention of the alias.
pub const BASH_TAIL: &'static str = ";\n    export TF_SHELL_ALIASES=$(alias);\n    export TF_HISTORY=$(fc -ln -10);\n    export PYTHONIOENCODING=utf-8;\n    TF_CMD=$(\n        ffs \"$@\"\n    );\n    BLOCK_RES=$?;\n    if [ $BLOCK_RES -eq 0 ]; then\n        eval \"$TF_CMD\";\n    fi\n    unset TF_HISTORY;\n    export PYTHONIOENCODING=$TF_PYTHONIOENCODING;\n    history -s $TF_CMD;\n}\n";

/// The snippet that defines the alias `alias_name` in `bash`.
pub open spec fn bash_alias(alias_name: Seq<char>) -> Seq<char> {
    BASH_HEAD@ + alias_name + BASH_MIDDLE@ + alias_name + BASH_TAIL@
}

impl Shell for Bash {
    open spec fn alias_text(&self, alias_name: Seq<char>) -> Seq<char> {
        bash_alias(alias_name)
    }

    open spec fn spec_history_variable(&self) -> Seq<char> {
        "HISTFILE"@
    }

    open spec fn spec_default_history_file(&self) -> Seq<char> {
        ".bash_history"@
    }

    open spec fn configured_history_file(&self, value: Seq<char>) -> Seq<char> {
        value
    }

    fn app_alias(&self, alias_name: &str) -> (snippet: String) {
        snippet_of(BASH_HEAD, BASH_MIDDLE, BASH_TAIL, alias_name)
    }

    fn history_variable(&self) -> (variable: &'static str) {
        "HISTFILE"
    }

    fn default_history_file(&self) -> (file: &'static str) {
        ".bash_history"
    }

    fn get_history_file_name(&self, configured: Option<String>, in_home: Option<String>) -> (file:
        String) {
        match configured {
            Some(value) => value,
            None => match in_home {
                Some(file) => file,
                None => String::from_str(".bash_history"),
            },
        }
    }
}

/// The shell `fish`.
#[derive(Debug)]
pub struct Fish;

/// What the snippet for `fish` holds before the first mention of the alias.
pub const FISH_HEAD: &'static str = "\nfunction ";

/// What the snippet for `fish` holds between the two mentions of the alias.
pub const FISH_MIDDLE: &'static str = "\n    set -x TF_PYTHONIOENCODING $PYTHONIOENCODING\n    set -x TF_SHELL fish\n    set -x TF_ALIAS ";

/// What the snippet for `fish` holds behind the second mention of the alias.
pub const FISH_TAIL: &'static str = "\n    set -x TF_SHELL_ALIASES (alias)\n    set -x TF_HISTORY (history -n 10)\n    set -x PYTHONIOENCODING utf-8\n\n    set -l TF_CMD (ffs $argv)\n\n    if test -n \"$TF_CMD\"\n        eval $TF_CMD\n        history --merge ^ /dev/null\n    end\n\n    set -e TF_HISTORY\n    set -x PYTHONIOENCODING $TF_PYTHONIOENCODING\nend\n";

/// The snippet that defines the alias `alias_name` in `fish`.
pub open spec fn fish_alias(alias_name: Seq<char>) -> Seq<char> {
    FISH_HEAD@ + alias_name + FISH_MIDDLE@ + alias_name + FISH_TAIL@
}

impl Shell for Fish {
    open spec fn alias_text(&self, alias_name: Seq<char>) -> Seq<char> {
        fish_alias(alias_name)
    }

    open spec fn spec_history_variable(&self) -> Seq<char> {
        "XDG_DATA_HOME"@
    }

    open spec fn spec_default_history_file(&self) -> Seq<char> {
        ".local/share/fish/fish_history"@
    }

    open spec fn configured_history_file(&self, value: Seq<char>) -> Seq<char> {
        value + "/fish/fish_history"@
    }

    fn app_alias(&self, alias_name: &str) -> (snippet: String) {
        snippet_of(FISH_HEAD, FISH_MIDDLE, FISH_TAIL, alias_name)
    }

    fn history_variable(&self) -> (variable: &'static str) {
        "XDG_DATA_HOME"
    }

    fn default_history_file(&self) -> (file: &'static str) {
        ".local/share/fish/fish_history"
    }

    fn get_history_file_name(&self, configured: Option<String>, in_home: Option<String>) -> (file:
        String) {
        match configured {
            Some(value) => {
                let mut file = value;
                file.append("/fish/fish_history");
                file
            },
            None => match in_home {
                Some(file) => file,
                None => String::from_str(".local/share/fish/fish_history"),
            },
        }
    }
}

/// The shell `zsh`.
#[derive(Debug)]
pub struct Zsh;

/// What the snippet for `zsh` holds before the first mention of the alias.
pub const ZSH_HEAD: &'static str = "\nfunction ";

/// What the snippet for `zsh` holds between the two mentions of the alias.
pub const ZSH_MIDDLE: &'static str = " () {\n    TF_PYTHONIOENCODING=$PYTHONIOENCODING;\n    export TF_SHELL=zsh;\n    export TF_ALIAS=";

/// What the snippet for `zsh` holds behind the second mention of the alias.
pub const ZSH_TAIL: &'static str = ";\n    export TF_SHELL_ALIASES=$(alias);\n    export TF_HISTORY=\"$(fc -ln -10)\";\n    export PYTHONIOENCODING=utf-8;\n    TF_CMD=$(\n        ffs \"$@\"\n    );\n    BLOCK_RES=$?;\n    if [ $BLOCK_RES -eq 0 ]; then\n        eval \"$TF_CMD\";\n    else\n        return $BLOCK_RES;\n    fi\n    unset TF_HISTORY;\n    export PYTHONIOENCODING=$TF_PYTHONIOENCODING;\n    print -s $TF_CMD;\n}\n";

/// The snippet that defines the alias `alias_name` in `zsh`.
pub open spec fn zsh_alias(alias_name: Seq<char>) -> Seq<char> {
    ZSH_HEAD@ + alias_name + ZSH_MIDDLE@ + alias_name + ZSH_TAIL@
}

impl Shell for Zsh {
    open spec fn alias_text(&self, alias_name: Seq<char>) -> Seq<char> {
        zsh_alias(alias_name)
    }

    open spec fn spec_history_variable(&self) -> Seq<char> {
        "HISTFILE"@
    }

    open spec fn spec_default_history_file(&self) -> Seq<char> {
        ".zsh_history"@
    }

    open spec fn configured_history_file(&self, value: Seq<char>) -> Seq<char> {
        value
    }

    fn app_alias(&self, alias_name: &str) -> (snippet: String) {
        snippet_of(ZSH_HEAD, ZSH_MIDDLE, ZSH_TAIL, alias_name)
    }

    fn history_variable(&self) -> (variable: &'static str) {
        "HISTFILE"
    }

    fn default_history_file(&self) -> (file: &'static str) {
        ".zsh_history"
    }

    fn get_history_file_name(&self, configured: Option<String>, in_home: Option<String>) -> (file:
        String) {
        match configured {
            Some(value) => value,
            None => match in_home {
                Some(file) => file,
                None => String::from_str(".zsh_history"),
            },
        }
    }
}

/// The snippet that a shell is given to define the alias `alias_name`, for
/// the shells `bash`, `fish` and `zsh`; no other shell is supported.
pub open spec fn alias_of(shell_name: Seq<char>, alias_name: Seq<char>) -> Option<Seq<char>> {
    if shell_name == "bash"@ {
        Some(bash_alias(alias_name))
    } else if shell_name == "fish"@ {
        Some(fish_alias(alias_name))
    } else if shell_name == "zsh"@ {
        Some(zsh_alias(alias_name))
    } else {
        None
    }
}

/// The snippet that defines the alias `alias_name` in the shell called
/// `shell_name`, or `None` for a shell that is not supported.
pub fn alias_for(shell_name: &str, alias_name: &str) -> (snippet: Option<String>)
    ensures
        snippet.deep_view() == alias_of(shell_name@, alias_name@),
{
    if equal(shell_name, "bash") {
        Some(Bash.app_alias(alias_name))
    } else if equal(shell_name, "fish") {
        Some(Fish.app_alias(alias_name))
    } else if equal(shell_name, "zsh") {
        Some(Zsh.app_alias(alias_name))
    } else {
        None
    }
}

} // verus!
