//! The command lines of the two external tools, and the environment each one
//! is started in.

use vstd::prelude::*;
use crate::generator::{GeneratorView, OgImageGenerator};

verus! {

/// The two variables of the host's environment that a tool may be given. No
/// other variable of the host ever reaches a tool.
#[derive(Debug, Clone, PartialEq, Eq)]
pub struct HostEnvironment {
    /// The value of `PATH`, where it is set and readable.
    pub path: Option<String>,
    /// The value of `HOME`, where it is set and readable.
    pub home: Option<String>,
}

/// One start of an external tool: the program, its arguments in order, and its
/// whole environment. The process is started with exactly the variables of
/// `env` and no others.
#[derive(Debug, Clone, PartialEq, Eq)]
pub struct Invocation {
    pub program: String,
    pub args: Vec<String>,
    pub env: Vec<(String, String)>,
}

/// What a [`HostEnvironment`] holds, as mathematical values.
pub struct HostEnvironmentView {
    pub path: Option<Seq<char>>,
    pub home: Option<Seq<char>>,
}

/// What an [`Invocation`] holds, as mathematical values.
pub struct InvocationView {
    pub program: Seq<char>,
    pub args: Seq<Seq<char>>,
    pub env: Seq<(Seq<char>, Seq<char>)>,
}

impl View for HostEnvironment {
    type V = HostEnvironmentView;

    open spec fn view(&self) -> HostEnvironmentView {
        HostEnvironmentView { path: self.path.deep_view(), home: self.home.deep_view() }
    }
}

impl View for Invocation {
    type V = InvocationView;

    open spec fn view(&self) -> InvocationView {
        InvocationView {
            program: self.program@,
            args: self.args.deep_view(),
            env: self.env.deep_view(),
        }
    }
}

/// The environment of a tool that needs `name` alone: the variable where the
/// host has it, nothing where it has not.
pub open spec fn passed_variable(name: Seq<char>, value: Option<Seq<char>>) -> Seq<
    (Seq<char>, Seq<char>),
> {
    match value {
        Some(value) => seq![(name, value)],
        None => seq![],
    }
}

/// The environment Typst is started in: `PATH`, to find itself, and `HOME`, to
/// find fonts.
pub open spec fn typst_environment(host: HostEnvironmentView) -> Seq<(Seq<char>, Seq<char>)> {
    passed_variable("PATH"@, host.path) + passed_variable("HOME"@, host.home)
}

/// The environment oxipng is started in: `PATH` alone.
pub open spec fn oxipng_environment(host: HostEnvironmentView) -> Seq<(Seq<char>, Seq<char>)> {
    passed_variable("PATH"@, host.path)
}

/// The arguments that tell Typst where its fonts are. A font directory makes
/// it the only source of fonts.
pub open spec fn font_arguments(font_path: Option<Seq<char>>) -> Seq<Seq<char>> {
    match font_path {
        Some(directory) => seq!["--font-path"@, directory, "--ignore-system-fonts"@],
        None => seq![],
    }
}

/// The arguments of one Typst compilation.
pub open spec fn typst_arguments(
    font_path: Option<Seq<char>>,
    data_json: Seq<char>,
    avatar_map_json: Seq<char>,
    template_path: Seq<char>,
    output_path: Seq<char>,
) -> Seq<Seq<char>> {
    seq![
        "compile"@,
        "--format"@,
        "png"@,
        "--input"@,
        "data="@ + data_json,
        "--input"@,
        "avatar_map="@ + avatar_map_json,
    ] + font_arguments(font_path) + seq![template_path, output_path]
}

/// The start of Typst that compiles the template at `template_path` into a PNG
/// at `output_path`.
pub open spec fn typst_invocation(
    generator: GeneratorView,
    host: HostEnvironmentView,
    data_json: Seq<char>,
    avatar_map_json: Seq<char>,
    template_path: Seq<char>,
    output_path: Seq<char>,
) -> InvocationView {
    InvocationView {
        program: generator.typst_binary_path,
        args: typst_arguments(
            generator.typst_font_path,
            data_json,
            avatar_map_json,
            template_path,
            output_path,
        ),
        env: typst_environment(host),
    }
}

/// The arguments of one optimization, which rewrites the file in place.
pub open spec fn oxipng_arguments(file: Seq<char>) -> Seq<Seq<char>> {
    seq!["--opt"@, "2"@, "--strip"@, "safe"@, file]
}

/// The start of oxipng on the image at `file`.
pub open spec fn oxipng_invocation(
    generator: GeneratorView,
    host: HostEnvironmentView,
    file: Seq<char>,
) -> InvocationView {
    InvocationView {
        program: generator.oxipng_binary_path,
        args: oxipng_arguments(file),
        env: oxipng_environment(host),
    }
}

/// Adds `name` to `env` where the host has a value for it.
fn pass_variable(env: &mut Vec<(String, String)>, name: &str, value: &Option<String>)
    ensures
        final(env).deep_view() == old(env).deep_view() + passed_variable(
            name@,
            value.deep_view(),
        ),
{
    if let Some(value) = value {
        env.push((name.to_owned(), value.clone()));
    }
}

/// Adds one argument to `args`.
fn push_argument(args: &mut Vec<String>, argument: String)
    ensures
        final(args).deep_view() == old(args).deep_view().push(argument@),
{
    args.push(argument);
}

impl OgImageGenerator {
    /// The command that compiles the template into a PNG: the two JSON texts
    /// go in as the inputs `data` and `avatar_map`, the font directory, where
    /// one is set, as the only source of fonts, and of the host's environment
    /// only `PATH` and `HOME` are passed on.
    pub fn typst_command(
        &self,
        host: &HostEnvironment,
        data_json: &str,
        avatar_map_json: &str,
        template_path: &str,
        output_path: &str,
    ) -> (invocation: Invocation)
        ensures
            invocation@ == typst_invocation(
                self@,
                host@,
                data_json@,
                avatar_map_json@,
                template_path@,
                output_path@,
            ),
    {
        let mut args: Vec<String> = Vec::new();
        push_argument(&mut args, "compile".to_owned());
        push_argument(&mut args, "--format".to_owned());
        push_argument(&mut args, "png".to_owned());
        push_argument(&mut args, "--input".to_owned());
        push_argument(&mut args, "data=".to_owned().concat(data_json));
        push_argument(&mut args, "--input".to_owned());
        push_argument(&mut args, "avatar_map=".to_owned().concat(avatar_map_json));
        if let Some(font_path) = self.typst_font_path() {
            push_argument(&mut args, "--font-path".to_owned());
            push_argument(&mut args, font_path.to_owned());
            push_argument(&mut args, "--ignore-system-fonts".to_owned());
        }
        push_argument(&mut args, template_path.to_owned());
        push_argument(&mut args, output_path.to_owned());
        assert(args.deep_view() =~= typst_arguments(
            self@.typst_font_path,
            data_json@,
            avatar_map_json@,
            template_path@,
            output_path@,
        ));
        let mut env: Vec<(String, String)> = Vec::new();
        pass_variable(&mut env, "PATH", &host.path);
        pass_variable(&mut env, "HOME", &host.home);
        Invocation { program: self.typst_binary_path().to_owned(), args, env }
    }

    /// The command that optimizes the PNG at `file` in place, at level 2 and
    /// stripping the metadata that is safe to strip. Of the host's environment
    /// only `PATH` is passed on.
    pub fn oxipng_command(&self, host: &HostEnvironment, file: &str) -> (invocation: Invocation)
        ensures
            invocation@ == oxipng_invocation(self@, host@, file@),
    {
        let mut args: Vec<String> = Vec::new();
        push_argument(&mut args, "--opt".to_owned());
        push_argument(&mut args, "2".to_owned());
        push_argument(&mut args, "--strip".to_owned());
        push_argument(&mut args, "safe".to_owned());
        push_argument(&mut args, file.to_owned());
        assert(args.deep_view() =~= oxipng_arguments(file@));
        let mut env: Vec<(String, String)> = Vec::new();
        pass_variable(&mut env, "PATH", &host.path);
        Invocation { program: self.oxipng_binary_path().to_owned(), args, env }
    }
}

/// Environment isolation: whatever the host's environment holds, Typst is
/// given at most `PATH` and `HOME`, each with the host's own value, and oxipng
/// at most `PATH`.
pub proof fn lemma_only_named_variables_pass(host: HostEnvironmentView)
    ensures
        forall|index: int|
            0 <= index < typst_environment(host).len() ==> {
                let variable = #[trigger] typst_environment(host)[index];
                ||| variable.0 == "PATH"@ && host.path == Some(variable.1)
                ||| variable.0 == "HOME"@ && host.home == Some(variable.1)
            },
        forall|index: int|
            0 <= index < oxipng_environment(host).len() ==> {
                let variable = #[trigger] oxipng_environment(host)[index];
                variable.0 == "PATH"@ && host.path == Some(variable.1)
            },
        typst_environment(host).len() <= 2,
        oxipng_environment(host).len() <= 1,
{
}

/// Fonts: with a font directory the engine is told to ignore the system's
/// fonts, and without one it is told nothing about fonts.
pub proof fn lemma_font_directory_is_exclusive(font_path: Option<Seq<char>>)
    ensures
        font_path is Some ==> font_arguments(font_path) == seq![
            "--font-path"@,
            font_path->0,
            "--ignore-system-fonts"@,
        ],
        font_path is None ==> font_arguments(font_path).len() == 0,
{
}

} // verus!
