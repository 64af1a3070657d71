//! Deciding how the shell environment is configured.
//!
//! Reading and writing the rc files is the caller's concern; the decisions
//! — which file to touch and what its new content must be — are made here.

use vstd::prelude::*;
use vstd::string::StringExecFns;

use crate::text;

verus! {

/// The marker line that opens this tool's shell configuration block.
pub open spec fn config_marker() -> Seq<char> {
    "# Cyrup shell configuration"@
}

/// The shell configuration block that gets appended to an rc file.
pub open spec fn spec_shell_config() -> Seq<char> {
    "# Cyrup shell configuration\nexport XDG_CONFIG_HOME=\"$HOME/.config\"\nexport XDG_CACHE_HOME=\"$HOME/.cache\"\nexport XDG_DATA_HOME=\"$HOME/.local/share\"\n\n# Rust\nexport CARGO_HOME=\"$XDG_DATA_HOME/cargo\"\nexport RUSTUP_HOME=\"$XDG_DATA_HOME/rustup\"\n\n# Path\nexport PATH=\"$CARGO_HOME/bin:$PATH\"\n\n# Aliases\nalias ls='ls --color=auto'\nalias ll='ls -la'\nalias grep='grep --color=auto'\n"@
}

/// The shell configuration block itself.
pub fn shell_config_template() -> (r: &'static str)
    ensures
        r@ == spec_shell_config(),
{
    "# Cyrup shell configuration\nexport XDG_CONFIG_HOME=\"$HOME/.config\"\nexport XDG_CACHE_HOME=\"$HOME/.cache\"\nexport XDG_DATA_HOME=\"$HOME/.local/share\"\n\n# Rust\nexport CARGO_HOME=\"$XDG_DATA_HOME/cargo\"\nexport RUSTUP_HOME=\"$XDG_DATA_HOME/rustup\"\n\n# Path\nexport PATH=\"$CARGO_HOME/bin:$PATH\"\n\n# Aliases\nalias ls='ls --color=auto'\nalias ll='ls -la'\nalias grep='grep --color=auto'\n"
}

/// Which rc file a login shell reads: `.zshrc` for zsh, `.bashrc` for
/// bash, `.profile` for anything else.
pub open spec fn spec_config_file(shell: Seq<char>) -> Seq<char> {
    if text::spec_ends_with(shell, "/zsh"@) {
        ".zshrc"@
    } else if text::spec_ends_with(shell, "/bash"@) {
        ".bashrc"@
    } else {
        ".profile"@
    }
}

/// The rc file to configure, named from the login shell's path.
pub fn shell_config_file(shell: &str) -> (r: String)
    ensures
        r@ == spec_config_file(shell@),
{
    if text::ends_with(shell, "/zsh") {
        String::from_str(".zshrc")
    } else if text::ends_with(shell, "/bash") {
        String::from_str(".bashrc")
    } else {
        String::from_str(".profile")
    }
}

/// The rc file's new content when the configuration block is missing:
/// the block alone for an empty file, else the current content with its
/// trailing whitespace dropped, a blank line, and the block. A file that
/// already holds the marker is left alone.
pub open spec fn spec_merged_config(current: Seq<char>) -> Option<Seq<char>> {
    if text::spec_contains(current, config_marker()) {
        None
    } else if current.len() == 0 {
        Some(spec_shell_config())
    } else {
        Some(text::spec_trim_end(current) + "\n\n"@ + spec_shell_config())
    }
}

/// Decide the rc file's new content, or `None` when it already holds this
/// tool's configuration block.
pub fn merged_shell_config(current: &str) -> (r: Option<String>)
    ensures
        r.deep_view() == spec_merged_config(current@),
{
    let template = shell_config_template();
    if text::contains_str(current, "# Cyrup shell configuration") {
        None
    } else if current.is_empty() {
        Some(String::from_str(template))
    } else {
        let mut out = String::from_str(text::trim_end_str(current));
        out.append("\n\n");
        out.append(template);
        Some(out)
    }
}

/// What is appended to a file that does not yet hold `content`: the file
/// followed by `content`. A file that already holds it is left alone.
pub open spec fn spec_appended_if_missing(current: Seq<char>, content: Seq<char>) -> Option<
    Seq<char>,
> {
    if text::spec_contains(current, content) {
        None
    } else {
        Some(current + content)
    }
}

/// Decide a file's new content when `content` must occur in it: `None`
/// when it already does, else the file with `content` appended.
pub fn appended_if_missing(current: &str, content: &str) -> (r: Option<String>)
    ensures
        r.deep_view() == spec_appended_if_missing(current@, content@),
{
    if text::contains_str(current, content) {
        None
    } else {
        let mut out = String::from_str(current);
        out.append(content);
        Some(out)
    }
}

} // verus!
