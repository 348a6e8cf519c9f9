use ffs::shells::{alias_for, Bash, Fish, Shell, Zsh};

#[test]
fn bash_alias_defines_the_function() {
    assert_eq!(
        Bash.app_alias("ffs"),
        "\nfunction ffs () {\n    TF_PYTHONIOENCODING=$PYTHONIOENCODING;\n    export TF_SHELL=bash;\n    export TF_ALIAS=ffs;\n    export TF_SHELL_ALIASES=$(alias);\n    export TF_HISTORY=$(fc -ln -10);\n    export PYTHONIOENCODING=utf-8;\n    TF_CMD=$(\n        ffs \"$@\"\n    );\n    BLOCK_RES=$?;\n    if [ $BLOCK_RES -eq 0 ]; then\n        eval \"$TF_CMD\";\n    fi\n    unset TF_HISTORY;\n    export PYTHONIOENCODING=$TF_PYTHONIOENCODING;\n    history -s $TF_CMD;\n}\n"
    );
}

#[test]
fn fish_alias_defines_the_function() {
    assert_eq!(
        Fish.app_alias("fix"),
        "\nfunction fix\n    set -x TF_PYTHONIOENCODING $PYTHONIOENCODING\n    set -x TF_SHELL fish\n    set -x TF_ALIAS fix\n    set -x TF_SHELL_ALIASES (alias)\n    set -x TF_HISTORY (history -n 10)\n    set -x PYTHONIOENCODING utf-8\n\n    set -l TF_CMD (ffs $argv)\n\n    if test -n \"$TF_CMD\"\n        eval $TF_CMD\n        history --merge ^ /dev/null\n    end\n\n    set -e TF_HISTORY\n    set -x PYTHONIOENCODING $TF_PYTHONIOENCODING\nend\n"
    );
}

#[test]
fn zsh_alias_defines_the_function() {
    assert_eq!(
        Zsh.app_alias("ffs"),
        "\nfunction ffs () {\n    TF_PYTHONIOENCODING=$PYTHONIOENCODING;\n    export TF_SHELL=zsh;\n    export TF_ALIAS=ffs;\n    export TF_SHELL_ALIASES=$(alias);\n    export TF_HISTORY=\"$(fc -ln -10)\";\n    export PYTHONIOENCODING=utf-8;\n    TF_CMD=$(\n        ffs \"$@\"\n    );\n    BLOCK_RES=$?;\n    if [ $BLOCK_RES -eq 0 ]; then\n        eval \"$TF_CMD\";\n    else\n        return $BLOCK_RES;\n    fi\n    unset TF_HISTORY;\n    export PYTHONIOENCODING=$TF_PYTHONIOENCODING;\n    print -s $TF_CMD;\n}\n"
    );
}

#[test]
fn an_alias_is_made_for_the_three_shells_only() {
    assert_eq!(alias_for("bash", "ffs"), Some(Bash.app_alias("ffs")));
    assert_eq!(alias_for("fish", "ffs"), Some(Fish.app_alias("ffs")));
    assert_eq!(alias_for("zsh", "ffs"), Some(Zsh.app_alias("ffs")));
    assert_eq!(alias_for("Bash", "ffs"), None);
    assert_eq!(alias_for("powershell", "ffs"), None);
    assert_eq!(alias_for("", "ffs"), None);
}

#[test]
fn the_history_file_comes_from_the_environment_first() {
    let set = Some("/custom/history".to_string());
    let home = Some("/home/me/.bash_history".to_string());
    assert_eq!(Bash.get_history_file_name(set.clone(), home.clone()), "/custom/history");
    assert_eq!(Bash.get_history_file_name(None, home), "/home/me/.bash_history");
    assert_eq!(Bash.get_history_file_name(None, None), ".bash_history");
    assert_eq!(Zsh.get_history_file_name(set, None), "/custom/history");
    assert_eq!(Zsh.get_history_file_name(None, None), ".zsh_history");
    assert_eq!(Bash.history_variable(), "HISTFILE");
    assert_eq!(Zsh.history_variable(), "HISTFILE");
    assert_eq!(Bash.default_history_file(), ".bash_history");
    assert_eq!(Zsh.default_history_file(), ".zsh_history");
}

#[test]
fn fish_keeps_its_history_below_the_data_directory() {
    let data = Some("/data".to_string());
    let home = Some("/home/me/.local/share/fish/fish_history".to_string());
    assert_eq!(Fish.get_history_file_name(data, home.clone()), "/data/fish/fish_history");
    assert_eq!(
        Fish.get_history_file_name(None, home),
        "/home/me/.local/share/fish/fish_history"
    );
    assert_eq!(Fish.get_history_file_name(None, None), ".local/share/fish/fish_history");
    assert_eq!(Fish.history_variable(), "XDG_DATA_HOME");
    assert_eq!(Fish.default_history_file(), ".local/share/fish/fish_history");
}
