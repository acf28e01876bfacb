//! Rendering of a configuration into a Nix flake document.
//!
//! Pure string templating: paths are rewritten to shell-expandable forms,
//! the declared packages, environment and hooks become sections of the
//! generated document, and the whole document is pinned, character for
//! character, by the contract of `render_flake`.

use vstd::prelude::*;
use vstd::string::*;

use crate::config::{Config, EnvVar};
use crate::text::{join_with, spec_join_with, spec_trim_dot_slash, trim_dot_slash};

verus! {

/// A path beginning with `/`.
pub open spec fn spec_is_absolute_path(path: Seq<char>) -> bool {
    path.len() > 0 && path[0] == '/'
}

/// Reports whether `path` is absolute.
pub fn is_absolute_path(path: &str) -> (r: bool)
    ensures
        r == spec_is_absolute_path(path@),
{
    let len = path.unicode_len();
    len > 0 && path.get_char(0) == '/'
}

/// A path rewritten for use inside the generated shell hook: `~/` becomes
/// `$HOME/`, an absolute path stands as it is, and a relative path (with
/// leading `./` segments removed) is placed under `$PWD/`.
pub open spec fn spec_resolve_path(path: Seq<char>) -> Seq<char> {
    if path.len() >= 2 && path[0] == '~' && path[1] == '/' {
        "$HOME/"@ + path.skip(2)
    } else if spec_is_absolute_path(path) {
        path
    } else {
        "$PWD/"@ + spec_trim_dot_slash(path)
    }
}

/// Rewrites `path` for use inside the generated shell hook.
pub fn resolve_path(path: &str) -> (r: String)
    ensures
        r@ == spec_resolve_path(path@),
{
    let len = path.unicode_len();
    if len >= 2 && path.get_char(0) == '~' && path.get_char(1) == '/' {
        let mut out = "$HOME/".to_owned();
        out.append(path.substring_char(2, len));
        proof {
            assert(path@.subrange(2, len as int) =~= path@.skip(2));
        }
        out
    } else if is_absolute_path(path) {
        path.to_owned()
    } else {
        let mut out = "$PWD/".to_owned();
        out.append(trim_dot_slash(path));
        out
    }
}

/// Each item prefixed with `prefix`, in order.
pub open spec fn spec_prefixed_lines(items: Seq<String>, prefix: Seq<char>) -> Seq<Seq<char>>
    decreases items.len(),
{
    if items.len() == 0 {
        Seq::<Seq<char>>::empty()
    } else {
        spec_prefixed_lines(items.drop_last(), prefix).push(prefix + items.last()@)
    }
}

/// Prefixes every item of `items` with `prefix`.
fn prefixed_lines(items: &[String], prefix: &str) -> (r: Vec<String>)
    ensures
        r.deep_view() == spec_prefixed_lines(items@, prefix@),
{
    let mut out: Vec<String> = Vec::new();
    let mut i: usize = 0;
    proof {
        assert(items@.take(0) =~= Seq::<String>::empty());
        assert(out.deep_view() =~= spec_prefixed_lines(items@.take(0), prefix@));
    }
    while i < items.len()
        invariant
            0 <= i <= items@.len(),
            out.deep_view() == spec_prefixed_lines(items@.take(i as int), prefix@),
        decreases items@.len() - i,
    {
        proof {
            assert(items@.take(i + 1).drop_last() =~= items@.take(i as int));
            assert(items@.take(i + 1).last() == items@[i as int]);
        }
        let mut line = prefix.to_owned();
        line.append(items[i].as_str());
        let ghost old_dv = out.deep_view();
        out.push(line);
        proof {
            assert(out.deep_view() =~= old_dv.push(prefix@ + items@[i as int]@));
        }
        i += 1;
    }
    proof {
        assert(items@.take(items@.len() as int) =~= items@);
    }
    out
}

/// One `export name=value` line per variable, joined with newlines; empty
/// input yields empty output.
pub open spec fn spec_envvar_lines(envvars: Seq<EnvVar>) -> Seq<Seq<char>>
    decreases envvars.len(),
{
    if envvars.len() == 0 {
        Seq::<Seq<char>>::empty()
    } else {
        spec_envvar_lines(envvars.drop_last()).push(
            "            export "@ + envvars.last().name@ + "="@ + envvars.last().value@,
        )
    }
}

/// The rendered export block.
pub open spec fn spec_render_envvar_export(envvars: Seq<EnvVar>) -> Seq<char> {
    if envvars.len() == 0 {
        Seq::<char>::empty()
    } else {
        spec_join_with(spec_envvar_lines(envvars), "\n"@)
    }
}

/// Renders one `export` line per declared environment variable.
pub fn render_envvar_export(envvars: &[EnvVar]) -> (r: String)
    ensures
        r@ == spec_render_envvar_export(envvars@),
{
    if envvars.len() == 0 {
        return String::new();
    }
    let mut lines: Vec<String> = Vec::new();
    let mut i: usize = 0;
    proof {
        assert(envvars@.take(0) =~= Seq::<EnvVar>::empty());
        assert(lines.deep_view() =~= spec_envvar_lines(envvars@.take(0)));
    }
    while i < envvars.len()
        invariant
            0 <= i <= envvars@.len(),
            lines.deep_view() == spec_envvar_lines(envvars@.take(i as int)),
        decreases envvars@.len() - i,
    {
        proof {
            assert(envvars@.take(i + 1).drop_last() =~= envvars@.take(i as int));
            assert(envvars@.take(i + 1).last() == envvars@[i as int]);
        }
        let mut line = "            export ".to_owned();
        line.append(envvars[i].name.as_str());
        line.append("=");
        line.append(envvars[i].value.as_str());
        let ghost old_dv = lines.deep_view();
        lines.push(line);
        proof {
            assert(lines.deep_view() =~= old_dv.push(
                "            export "@ + envvars@[i as int].name@ + "="@
                    + envvars@[i as int].value@,
            ));
        }
        i += 1;
    }
    proof {
        assert(envvars@.take(envvars@.len() as int) =~= envvars@);
    }
    join_with(&lines, "\n")
}

/// The loader block for one dotenv file.
pub open spec fn spec_dotenv_block(file: Seq<char>) -> Seq<char> {
    "            # Load dotenv file: "@ + file + "\n            set -a\n            source \""@
        + spec_resolve_path(file) + "\"\n            set +a"@
}

/// One loader block per dotenv file, in order.
pub open spec fn spec_dotenv_blocks(files: Seq<String>) -> Seq<Seq<char>>
    decreases files.len(),
{
    if files.len() == 0 {
        Seq::<Seq<char>>::empty()
    } else {
        spec_dotenv_blocks(files.drop_last()).push(spec_dotenv_block(files.last()@))
    }
}

/// The rendered dotenv-loading section.
pub open spec fn spec_render_dotenv_loading(files: Seq<String>) -> Seq<char> {
    if files.len() == 0 {
        Seq::<char>::empty()
    } else {
        spec_join_with(spec_dotenv_blocks(files), "\n\n"@)
    }
}

/// Renders the loader block for every declared dotenv file.
pub fn render_dotenv_loading(dotenv_files: &[String]) -> (r: String)
    ensures
        r@ == spec_render_dotenv_loading(dotenv_files@),
{
    if dotenv_files.len() == 0 {
        return String::new();
    }
    let mut blocks: Vec<String> = Vec::new();
    let mut i: usize = 0;
    proof {
        assert(dotenv_files@.take(0) =~= Seq::<String>::empty());
        assert(blocks.deep_view() =~= spec_dotenv_blocks(dotenv_files@.take(0)));
    }
    while i < dotenv_files.len()
        invariant
            0 <= i <= dotenv_files@.len(),
            blocks.deep_view() == spec_dotenv_blocks(dotenv_files@.take(i as int)),
        decreases dotenv_files@.len() - i,
    {
        proof {
            assert(dotenv_files@.take(i + 1).drop_last() =~= dotenv_files@.take(i as int));
            assert(dotenv_files@.take(i + 1).last() == dotenv_files@[i as int]);
        }
        let resolved = resolve_path(dotenv_files[i].as_str());
        let mut block = "            # Load dotenv file: ".to_owned();
        block.append(dotenv_files[i].as_str());
        block.append("\n            set -a\n            source \"");
        block.append(resolved.as_str());
        block.append("\"\n            set +a");
        let ghost old_dv = blocks.deep_view();
        blocks.push(block);
        proof {
            assert(blocks.deep_view() =~= old_dv.push(spec_dotenv_block(
                dotenv_files@[i as int]@,
            )));
        }
        i += 1;
    }
    proof {
        assert(dotenv_files@.take(dotenv_files@.len() as int) =~= dotenv_files@);
    }
    join_with(&blocks, "\n\n")
}

/// The loader block for one shell-alias file.
pub open spec fn spec_alias_block(file: Seq<char>) -> Seq<char> {
    "            # Load shell aliases: "@ + file + "\n            if [ -f \""@
        + spec_resolve_path(file) + "\" ]; then\n                eval \"$(grep '^alias ' \""@
        + spec_resolve_path(file) + "\" 2>/dev/null || true)\"\n            fi"@
}

/// One loader block per shell-alias file, in order.
pub open spec fn spec_alias_blocks(files: Seq<String>) -> Seq<Seq<char>>
    decreases files.len(),
{
    if files.len() == 0 {
        Seq::<Seq<char>>::empty()
    } else {
        spec_alias_blocks(files.drop_last()).push(spec_alias_block(files.last()@))
    }
}

/// The rendered alias-loading section.
pub open spec fn spec_render_shell_alias_loading(files: Seq<String>) -> Seq<char> {
    if files.len() == 0 {
        Seq::<char>::empty()
    } else {
        spec_join_with(spec_alias_blocks(files), "\n\n"@)
    }
}

/// Renders the loader block for every declared shell-alias file.
pub fn render_shell_alias_loading(alias_files: &[String]) -> (r: String)
    ensures
        r@ == spec_render_shell_alias_loading(alias_files@),
{
    if alias_files.len() == 0 {
        return String::new();
    }
    let mut blocks: Vec<String> = Vec::new();
    let mut i: usize = 0;
    proof {
        assert(alias_files@.take(0) =~= Seq::<String>::empty());
        assert(blocks.deep_view() =~= spec_alias_blocks(alias_files@.take(0)));
    }
    while i < alias_files.len()
        invariant
            0 <= i <= alias_files@.len(),
            blocks.deep_view() == spec_alias_blocks(alias_files@.take(i as int)),
        decreases alias_files@.len() - i,
    {
        proof {
            assert(alias_files@.take(i + 1).drop_last() =~= alias_files@.take(i as int));
            assert(alias_files@.take(i + 1).last() == alias_files@[i as int]);
        }
        let resolved = resolve_path(alias_files[i].as_str());
        let mut block = "            # Load shell aliases: ".to_owned();
        block.append(alias_files[i].as_str());
        block.append("\n            if [ -f \"");
        block.append(resolved.as_str());
        block.append("\" ]; then\n                eval \"$(grep '^alias ' \"");
        block.append(resolved.as_str());
        block.append("\" 2>/dev/null || true)\"\n            fi");
        let ghost old_dv = blocks.deep_view();
        blocks.push(block);
        proof {
            assert(blocks.deep_view() =~= old_dv.push(spec_alias_block(
                alias_files@[i as int]@,
            )));
        }
        i += 1;
    }
    proof {
        assert(alias_files@.take(alias_files@.len() as int) =~= alias_files@);
    }
    join_with(&blocks, "\n\n")
}

/// Each test command quoted and indented for the generated runner.
pub open spec fn spec_quoted_tests(tests: Seq<String>) -> Seq<Seq<char>>
    decreases tests.len(),
{
    if tests.len() == 0 {
        Seq::<Seq<char>>::empty()
    } else {
        spec_quoted_tests(tests.drop_last()).push("        \""@ + tests.last()@ + "\""@)
    }
}

/// The script that runs every declared test command and reports a
/// pass/fail tally; empty input yields empty output.
pub open spec fn spec_render_test_execution(tests: Seq<String>) -> Seq<char> {
    if tests.len() == 0 {
        Seq::<char>::empty()
    } else {
        "TESTS_FAILED=0\nTESTS_PASSED=0\n\necho \"Running tests...\"\necho \"=================\"\n\nfor test_cmd in \\\n"@
            + spec_join_with(spec_quoted_tests(tests), " \\\n"@)
            + "\ndo\n    echo \"\"\n    echo \"Running: $test_cmd\"\n    echo \"---\"\n    if bash -c \"$test_cmd\"; then\n        TESTS_PASSED=$((TESTS_PASSED + 1))\n        echo \"[PASS] $test_cmd\"\n    else\n        TESTS_FAILED=$((TESTS_FAILED + 1))\n        echo \"[FAIL] $test_cmd\"\n    fi\ndone\n\necho \"\"\necho \"=================\"\necho \"Test Results: $TESTS_PASSED passed, $TESTS_FAILED failed\"\n\nif [ $TESTS_FAILED -gt 0 ]; then\n    exit 1\nfi"@
    }
}

/// Renders the test-runner script for the declared test commands.
pub fn render_test_execution(tests: &[String]) -> (r: String)
    ensures
        r@ == spec_render_test_execution(tests@),
{
    if tests.len() == 0 {
        return String::new();
    }
    let mut quoted: Vec<String> = Vec::new();
    let mut i: usize = 0;
    proof {
        assert(tests@.take(0) =~= Seq::<String>::empty());
        assert(quoted.deep_view() =~= spec_quoted_tests(tests@.take(0)));
    }
    while i < tests.len()
        invariant
            0 <= i <= tests@.len(),
            quoted.deep_view() == spec_quoted_tests(tests@.take(i as int)),
        decreases tests@.len() - i,
    {
        proof {
            assert(tests@.take(i + 1).drop_last() =~= tests@.take(i as int));
            assert(tests@.take(i + 1).last() == tests@[i as int]);
        }
        let mut q = "        \"".to_owned();
        q.append(tests[i].as_str());
        q.append("\"");
        let ghost old_dv = quoted.deep_view();
        quoted.push(q);
        proof {
            assert(quoted.deep_view() =~= old_dv.push("        \""@ + tests@[i as int]@ + "\""@));
        }
        i += 1;
    }
    proof {
        assert(tests@.take(tests@.len() as int) =~= tests@);
    }
    let commands = join_with(&quoted, " \\\n");
    let mut out =
        "TESTS_FAILED=0\nTESTS_PASSED=0\n\necho \"Running tests...\"\necho \"=================\"\n\nfor test_cmd in \\\n".to_owned();
    out.append(commands.as_str());
    out.append(
        "\ndo\n    echo \"\"\n    echo \"Running: $test_cmd\"\n    echo \"---\"\n    if bash -c \"$test_cmd\"; then\n        TESTS_PASSED=$((TESTS_PASSED + 1))\n        echo \"[PASS] $test_cmd\"\n    else\n        TESTS_FAILED=$((TESTS_FAILED + 1))\n        echo \"[FAIL] $test_cmd\"\n    fi\ndone\n\necho \"\"\necho \"=================\"\necho \"Test Results: $TESTS_PASSED passed, $TESTS_FAILED failed\"\n\nif [ $TESTS_FAILED -gt 0 ]; then\n    exit 1\nfi",
    );
    out
}

/// The text of a boolean in the generated document.
pub open spec fn spec_bool_text(b: bool) -> Seq<char> {
    if b {
        "true"@
    } else {
        "false"@
    }
}

fn bool_text(b: bool) -> (r: &'static str)
    ensures
        r@ == spec_bool_text(b),
{
    if b {
        "true"
    } else {
        "false"
    }
}

/// The registry URL the document pins for stable packages: the override
/// when one is given, a fixed default otherwise.
pub open spec fn spec_stable_url(override_stable_package: Option<&str>) -> Seq<char> {
    match override_stable_package {
        Some(url) => url@,
        None => "github:NixOS/nixpkgs/nixos-25.11"@,
    }
}

/// The package list section of the document.
pub open spec fn spec_build_inputs(stable: Seq<String>, unstable: Seq<String>) -> Seq<char> {
    let stable_lines = if stable.len() == 0 {
        Seq::<char>::empty()
    } else {
        spec_join_with(spec_prefixed_lines(stable, "            stablePackages."@), "\n"@)
    };
    let unstable_lines = if unstable.len() == 0 {
        Seq::<char>::empty()
    } else {
        spec_join_with(spec_prefixed_lines(unstable, "            unstablePackages."@), "\n"@)
    };
    if stable_lines.len() > 0 && unstable_lines.len() > 0 {
        "            # Stable packages\n"@ + stable_lines + "\n            # Unstable packages\n"@
            + unstable_lines
    } else if stable_lines.len() > 0 {
        "            # Stable packages\n"@ + stable_lines
    } else if unstable_lines.len() > 0 {
        "            # Unstable packages\n"@ + unstable_lines
    } else {
        "            # No packages specified"@
    }
}

/// The user hook lines: a welcome line when none are declared.
pub open spec fn spec_user_shell_hook(hooks: Seq<String>) -> Seq<char> {
    if hooks.len() == 0 {
        "            echo \"Welcome to LazyNix DevShell!\""@
    } else {
        spec_join_with(spec_prefixed_lines(hooks, "            "@), "\n"@)
    }
}

/// The shell-hook sections in their fixed order — dotenv loading,
/// variable exports, alias loading, the user hook, and the test block —
/// with empty sections left out (the user hook is always present).
pub open spec fn spec_shell_hook_parts(c: &Config) -> Seq<Seq<char>> {
    let dotenv_hook = match c.dev_shell.env {
        Some(ref e) => spec_render_dotenv_loading(e.dotenv@),
        None => Seq::<char>::empty(),
    };
    let envvar_hook = match c.dev_shell.env {
        Some(ref e) => spec_render_envvar_export(e.envvar@),
        None => Seq::<char>::empty(),
    };
    let alias_hook = spec_render_shell_alias_loading(c.dev_shell.shell_alias@);
    let test_execution = spec_render_test_execution(c.dev_shell.test@);
    let p0 = Seq::<Seq<char>>::empty();
    let p1 = if dotenv_hook.len() > 0 {
        p0.push(dotenv_hook)
    } else {
        p0
    };
    let p2 = if envvar_hook.len() > 0 {
        p1.push(envvar_hook)
    } else {
        p1
    };
    let p3 = if alias_hook.len() > 0 {
        p2.push(alias_hook)
    } else {
        p2
    };
    let p4 = p3.push(spec_user_shell_hook(c.dev_shell.shell_hook@));
    if test_execution.len() > 0 {
        p4.push(
            "if [ \"$LAZYNIX_TEST_MODE\" = \"1\" ]; then\n"@ + test_execution + "\nfi"@,
        )
    } else {
        p4
    }
}

/// The whole generated document, character for character.
pub open spec fn spec_render_flake(c: &Config, override_stable_package: Option<&str>) -> Seq<
    char,
> {
    "# Generated by LazyNix - DO NOT EDIT MANUALLY\n# This file is automatically generated from lazynix.yaml\n# To make changes, edit lazynix.yaml and run: lnix develop\n\n{\n  description = \"DevShell generated by LazyNix\";\n\n  inputs = {\n    nixpkgs.url = \""@
        + spec_stable_url(override_stable_package)
        + "\";\n    nixpkgs-unstable.url = \"github:NixOS/nixpkgs/nixos-unstable\";\n    flake-utils.url = \"github:numtide/flake-utils\";\n  };\n\n  outputs = { self, nixpkgs, nixpkgs-unstable, flake-utils }:\n    flake-utils.lib.eachDefaultSystem (system:\n      let\n        stablePackages = import nixpkgs {\n          inherit system;\n          config.allowUnfree = "@
        + spec_bool_text(c.dev_shell.allow_unfree)
        + ";\n        };\n        unstablePackages = import nixpkgs-unstable {\n          inherit system;\n          config.allowUnfree = "@
        + spec_bool_text(c.dev_shell.allow_unfree)
        + ";\n        };\n      in\n      {\n        devShells.default = stablePackages.mkShell {\n          buildInputs = [\n"@
        + spec_build_inputs(c.dev_shell.package.stable@, c.dev_shell.package.unstable@)
        + "\n          ];\n\n          shellHook = ''\n"@ + spec_join_with(
        spec_shell_hook_parts(c),
        "\n\n"@,
    ) + "\n          '';\n        };\n      }\n    );\n}\n"@
}

/// Renders the configuration into the generated document, using the
/// override registry URL when one is given.
pub fn render_flake(config: &Config, override_stable_package: Option<&str>) -> (r: String)
    ensures
        r@ == spec_render_flake(config, override_stable_package),
{
    let allow_unfree = config.dev_shell.allow_unfree;
    let stable_url = match override_stable_package {
        Some(url) => url,
        None => "github:NixOS/nixpkgs/nixos-25.11",
    };

    let stable_packages = if config.dev_shell.package.stable.len() == 0 {
        String::new()
    } else {
        let lines = prefixed_lines(&config.dev_shell.package.stable, "            stablePackages.");
        join_with(&lines, "\n")
    };
    let unstable_packages = if config.dev_shell.package.unstable.len() == 0 {
        String::new()
    } else {
        let lines = prefixed_lines(
            &config.dev_shell.package.unstable,
            "            unstablePackages.",
        );
        join_with(&lines, "\n")
    };

    let mut build_inputs = String::new();
    if !stable_packages.as_str().is_empty() && !unstable_packages.as_str().is_empty() {
        build_inputs.append("            # Stable packages\n");
        build_inputs.append(stable_packages.as_str());
        build_inputs.append("\n            # Unstable packages\n");
        build_inputs.append(unstable_packages.as_str());
    } else if !stable_packages.as_str().is_empty() {
        build_inputs.append("            # Stable packages\n");
        build_inputs.append(stable_packages.as_str());
    } else if !unstable_packages.as_str().is_empty() {
        build_inputs.append("            # Unstable packages\n");
        build_inputs.append(unstable_packages.as_str());
    } else {
        build_inputs.append("            # No packages specified");
    }
    proof {
        assert(build_inputs@ =~= spec_build_inputs(
            config.dev_shell.package.stable@,
            config.dev_shell.package.unstable@,
        ));
    }

    let dotenv_hook = match &config.dev_shell.env {
        Some(env) => render_dotenv_loading(&env.dotenv),
        None => String::new(),
    };
    let envvar_hook = match &config.dev_shell.env {
        Some(env) => render_envvar_export(&env.envvar),
        None => String::new(),
    };
    let shell_alias_hook = render_shell_alias_loading(&config.dev_shell.shell_alias);

    let user_shell_hook = if config.dev_shell.shell_hook.len() == 0 {
        "            echo \"Welcome to LazyNix DevShell!\"".to_owned()
    } else {
        let lines = prefixed_lines(&config.dev_shell.shell_hook, "            ");
        join_with(&lines, "\n")
    };

    let test_execution = if config.dev_shell.test.len() > 0 {
        render_test_execution(&config.dev_shell.test)
    } else {
        String::new()
    };

    let mut shell_hook_parts: Vec<String> = Vec::new();
    let ghost spec_parts = spec_shell_hook_parts(config);
    if !dotenv_hook.as_str().is_empty() {
        shell_hook_parts.push(dotenv_hook);
    }
    if !envvar_hook.as_str().is_empty() {
        shell_hook_parts.push(envvar_hook);
    }
    if !shell_alias_hook.as_str().is_empty() {
        shell_hook_parts.push(shell_alias_hook);
    }
    shell_hook_parts.push(user_shell_hook);
    if !test_execution.as_str().is_empty() {
        let mut test_block = "if [ \"$LAZYNIX_TEST_MODE\" = \"1\" ]; then\n".to_owned();
        test_block.append(test_execution.as_str());
        test_block.append("\nfi");
        shell_hook_parts.push(test_block);
    }
    proof {
        assert(shell_hook_parts.deep_view() =~= spec_parts);
    }
    let shell_hook = join_with(&shell_hook_parts, "\n\n");

    let mut out =
        "# Generated by LazyNix - DO NOT EDIT MANUALLY\n# This file is automatically generated from lazynix.yaml\n# To make changes, edit lazynix.yaml and run: lnix develop\n\n{\n  description = \"DevShell generated by LazyNix\";\n\n  inputs = {\n    nixpkgs.url = \"".to_owned();
    out.append(stable_url);
    out.append(
        "\";\n    nixpkgs-unstable.url = \"github:NixOS/nixpkgs/nixos-unstable\";\n    flake-utils.url = \"github:numtide/flake-utils\";\n  };\n\n  outputs = { self, nixpkgs, nixpkgs-unstable, flake-utils }:\n    flake-utils.lib.eachDefaultSystem (system:\n      let\n        stablePackages = import nixpkgs {\n          inherit system;\n          config.allowUnfree = ",
    );
    out.append(bool_text(allow_unfree));
    out.append(
        ";\n        };\n        unstablePackages = import nixpkgs-unstable {\n          inherit system;\n          config.allowUnfree = ",
    );
    out.append(bool_text(allow_unfree));
    out.append(
        ";\n        };\n      in\n      {\n        devShells.default = stablePackages.mkShell {\n          buildInputs = [\n",
    );
    out.append(build_inputs.as_str());
    out.append("\n          ];\n\n          shellHook = ''\n");
    out.append(shell_hook.as_str());
    out.append("\n          '';\n        };\n      }\n    );\n}\n");
    out
}

} // verus!
