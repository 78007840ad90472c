//! The generator's configuration: where the two tools and the fonts are found.

use vstd::prelude::*;
use crate::error::OgImageError;
use crate::format::{classify, extension_text, sniff};

verus! {

/// Generates OpenGraph images with the Typst typesetting system.
///
/// Holds the paths of the Typst binary and of the oxipng binary, and the font
/// directory if one is set. It does not change once it is built.
#[derive(Debug, Clone)]
pub struct OgImageGenerator {
    typst_binary_path: String,
    typst_font_path: Option<String>,
    oxipng_binary_path: String,
}

/// What an [`OgImageGenerator`] holds, as mathematical values.
pub struct GeneratorView {
    pub typst_binary_path: Seq<char>,
    pub typst_font_path: Option<Seq<char>>,
    pub oxipng_binary_path: Seq<char>,
}

/// What looking up one variable of the environment gave: its value, its
/// absence, or the reason it could not be read.
pub type Lookup = Result<Option<String>, String>;

/// A lookup as mathematical values.
pub open spec fn lookup_view(lookup: Lookup) -> Result<Option<Seq<char>>, Seq<char>> {
    match lookup {
        Ok(Some(value)) => Ok(Some(value@)),
        Ok(None) => Ok(None),
        Err(reason) => Err(reason@),
    }
}

/// The configuration with no override: both tools are looked for on the search
/// path, and Typst discovers fonts by itself.
pub open spec fn default_configuration() -> GeneratorView {
    GeneratorView {
        typst_binary_path: "typst"@,
        typst_font_path: None,
        oxipng_binary_path: "oxipng"@,
    }
}

/// The configuration that three readable variables give: each one that is set
/// replaces the default of its own field, and of no other.
pub open spec fn environment_configuration(
    typst_path: Option<Seq<char>>,
    font_path: Option<Seq<char>>,
    oxipng_path: Option<Seq<char>>,
) -> GeneratorView {
    GeneratorView {
        typst_binary_path: match typst_path {
            Some(path) => path,
            None => default_configuration().typst_binary_path,
        },
        typst_font_path: font_path,
        oxipng_binary_path: match oxipng_path {
            Some(path) => path,
            None => default_configuration().oxipng_binary_path,
        },
    }
}

/// What [`OgImageGenerator::from_environment`] returns for three lookups: the
/// configuration they give, or the reason of the first one that failed.
pub open spec fn from_environment_result(
    typst_path: Result<Option<Seq<char>>, Seq<char>>,
    font_path: Result<Option<Seq<char>>, Seq<char>>,
    oxipng_path: Result<Option<Seq<char>>, Seq<char>>,
) -> Result<GeneratorView, Seq<char>> {
    match typst_path {
        Err(reason) => Err(reason),
        Ok(typst) => match font_path {
            Err(reason) => Err(reason),
            Ok(font) => match oxipng_path {
                Err(reason) => Err(reason),
                Ok(oxipng) => Ok(environment_configuration(typst, font, oxipng)),
            },
        },
    }
}

impl View for OgImageGenerator {
    type V = GeneratorView;

    closed spec fn view(&self) -> GeneratorView {
        GeneratorView {
            typst_binary_path: self.typst_binary_path@,
            typst_font_path: self.typst_font_path.deep_view(),
            oxipng_binary_path: self.oxipng_binary_path@,
        }
    }
}

impl Default for OgImageGenerator {
    /// A generator that expects `typst` and `oxipng` on the search path.
    fn default() -> (generator: Self)
        ensures
            generator@ == default_configuration(),
    {
        OgImageGenerator {
            typst_binary_path: "typst".to_owned(),
            typst_font_path: None,
            oxipng_binary_path: "oxipng".to_owned(),
        }
    }
}

impl OgImageGenerator {
    /// A generator that expects `typst` and `oxipng` on the search path. Use
    /// [`with_typst_path`](Self::with_typst_path),
    /// [`with_font_path`](Self::with_font_path) and
    /// [`with_oxipng_path`](Self::with_oxipng_path) to change that.
    pub fn new() -> (generator: Self)
        ensures
            generator@ == default_configuration(),
    {
        Self::default()
    }

    /// Detects the image format from the signature bytes and gives the file
    /// extension that goes with it: `png`, `jpg`, or nothing for any other
    /// content.
    pub fn detect_image_format(bytes: &[u8]) -> (extension: Option<&'static str>)
        ensures
            match sniff(bytes@) {
                Some(format) => extension is Some && extension->0@ == extension_text(format),
                None => extension is None,
            },
    {
        match classify(bytes) {
            Some(format) => Some(format.extension()),
            None => None,
        }
    }

    /// Builds a generator from what the environment holds under `TYPST_PATH`,
    /// `TYPST_FONT_PATH` and `OXIPNG_PATH`, given here as the three lookups.
    ///
    /// A variable that is set replaces the default of its field; one that is
    /// absent leaves it. A variable that cannot be read makes the construction
    /// fail, with the reason of the first such variable in the order above.
    pub fn from_environment(typst_path: Lookup, font_path: Lookup, oxipng_path: Lookup) -> (result:
        Result<Self, OgImageError>)
        ensures
            match from_environment_result(
                lookup_view(typst_path),
                lookup_view(font_path),
                lookup_view(oxipng_path),
            ) {
                Ok(configuration) => result is Ok && result->Ok_0@ == configuration,
                Err(reason) => result is Err && result->Err_0@
                    == crate::error::OgImageErrorView::EnvVarError(reason),
            },
    {
        let typst_path = match typst_path {
            Ok(value) => value,
            Err(reason) => {
                return Err(OgImageError::EnvVarError(reason));
            },
        };
        let font_path = match font_path {
            Ok(value) => value,
            Err(reason) => {
                return Err(OgImageError::EnvVarError(reason));
            },
        };
        let oxipng_path = match oxipng_path {
            Ok(value) => value,
            Err(reason) => {
                return Err(OgImageError::EnvVarError(reason));
            },
        };
        let mut generator = OgImageGenerator::new();
        if let Some(path) = typst_path {
            generator.typst_binary_path = path;
        }
        if let Some(path) = font_path {
            generator.typst_font_path = Some(path);
        }
        if let Some(path) = oxipng_path {
            generator.oxipng_binary_path = path;
        }
        Ok(generator)
    }

    /// Sets the path of the Typst binary, whatever it was before.
    pub fn with_typst_path(self, typst_path: String) -> (generator: Self)
        ensures
            generator@ == (GeneratorView { typst_binary_path: typst_path@, ..self@ }),
    {
        let mut generator = self;
        generator.typst_binary_path = typst_path;
        generator
    }

    /// Sets the directory in which Typst looks for fonts. With it set, Typst is
    /// told to ignore the fonts of the system.
    pub fn with_font_path(self, font_path: String) -> (generator: Self)
        ensures
            generator@ == (GeneratorView { typst_font_path: Some(font_path@), ..self@ }),
    {
        let mut generator = self;
        generator.typst_font_path = Some(font_path);
        generator
    }

    /// Sets the path of the oxipng binary, whatever it was before.
    pub fn with_oxipng_path(self, oxipng_path: String) -> (generator: Self)
        ensures
            generator@ == (GeneratorView { oxipng_binary_path: oxipng_path@, ..self@ }),
    {
        let mut generator = self;
        generator.oxipng_binary_path = oxipng_path;
        generator
    }

    /// The path of the Typst binary.
    pub fn typst_binary_path(&self) -> (path: &str)
        ensures
            path@ == self@.typst_binary_path,
    {
        self.typst_binary_path.as_str()
    }

    /// The font directory, if one is set.
    pub fn typst_font_path(&self) -> (path: Option<&str>)
        ensures
            path.deep_view() == self@.typst_font_path,
    {
        match &self.typst_font_path {
            Some(path) => Some(path.as_str()),
            None => None,
        }
    }

    /// The path of the oxipng binary.
    pub fn oxipng_binary_path(&self) -> (path: &str)
        ensures
            path@ == self@.oxipng_binary_path,
    {
        self.oxipng_binary_path.as_str()
    }
}

} // verus!
