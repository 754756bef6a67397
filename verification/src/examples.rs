//! Example templates: the bundled templates kept in an `examples`
//! directory beside the user's own, to look at and to copy from.

use crate::catalog::{catalog_view, shipped_catalog, shipped_templates, AssetView, TemplateAsset};
use crate::config::{
    join_path, kind_dir, kind_dir_in, kind_name, path_in, template_file, template_file_in,
    template_path, template_path_in, Config, TemplateKind,
};
use crate::sync::{files_map, files_view, lookup, FileView, TemplateFile};
use crate::templates::read_file;
use crate::text::{concat, str_eq, texts_view};
use vstd::prelude::*;

verus! {

/// The directory of the example templates of one kind.
pub open spec fn examples_dir(config_dir: Seq<char>, kind: TemplateKind) -> Seq<char> {
    path_in(kind_dir(config_dir, kind), "examples"@)
}

/// The file of the example template `name`.
pub open spec fn example_path(config_dir: Seq<char>, kind: TemplateKind, name: Seq<char>) -> Seq<
    char,
> {
    template_file_in(examples_dir(config_dir, kind), name)
}

/// The kind that a word names, in the singular or the plural.
pub open spec fn kind_from_word(word: Seq<char>) -> Option<TemplateKind> {
    if word == "baselines"@ || word == "baseline"@ {
        Some(TemplateKind::Baselines)
    } else if word == "outcomes"@ || word == "outcome"@ {
        Some(TemplateKind::Outcomes)
    } else {
        None
    }
}

/// Why an example cannot be copied.
#[derive(Debug, Clone, Copy, PartialEq, Eq, Structural)]
pub enum CopyError {
    /// The word names no kind of template.
    UnknownKind,
    /// There is no such example.
    NotFound,
    /// The user already has a template of that name.
    AlreadyExists,
}

/// What copying an example comes to: the file to write, or why there is
/// none.  The word must name a kind, the example must exist, and the user
/// must not have a template of its name.
pub open spec fn copy_example_spec(
    config_dir: Seq<char>,
    fs: Map<Seq<char>, Seq<char>>,
    word: Seq<char>,
    name: Seq<char>,
) -> Result<FileView, CopyError> {
    match kind_from_word(word) {
        None => Err(CopyError::UnknownKind),
        Some(kind) => if !fs.contains_key(example_path(config_dir, kind, name)) {
            Err(CopyError::NotFound)
        } else if fs.contains_key(template_path(config_dir, kind, name)) {
            Err(CopyError::AlreadyExists)
        } else {
            Ok(
                FileView {
                    path: template_path(config_dir, kind, name),
                    content: fs[example_path(config_dir, kind, name)],
                },
            )
        },
    }
}

/// The words that tell the user why an example cannot be copied.
pub open spec fn copy_error_text(err: CopyError, word: Seq<char>, name: Seq<char>) -> Seq<char> {
    match err {
        CopyError::UnknownKind => "unknown template kind: "@ + word,
        CopyError::NotFound => "example '"@ + name + "' not found in "@ + word + "/examples/"@,
        CopyError::AlreadyExists => "'"@ + name + "' already exists in your "@ + word
            + " directory"@,
    }
}

/// The example files that are missing and are to be written, in catalog
/// order.
pub open spec fn missing_examples(
    catalog: Seq<AssetView>,
    config_dir: Seq<char>,
    fs: Map<Seq<char>, Seq<char>>,
) -> Seq<FileView>
    decreases catalog.len(),
{
    if catalog.len() == 0 {
        Seq::empty()
    } else {
        let before = missing_examples(catalog.drop_last(), config_dir, fs);
        let a = catalog.last();
        if fs.contains_key(example_path(config_dir, a.kind, a.name)) {
            before
        } else {
            before.push(
                FileView { path: example_path(config_dir, a.kind, a.name), content: a.content },
            )
        }
    }
}

/// How a written example is reported: by its path below the configuration
/// directory.
pub open spec fn example_label(asset: AssetView) -> Seq<char> {
    kind_name(asset.kind) + "/examples/"@ + asset.name + ".toml"@
}

/// The labels of the example files that are missing, in catalog order.
pub open spec fn missing_labels(
    catalog: Seq<AssetView>,
    config_dir: Seq<char>,
    fs: Map<Seq<char>, Seq<char>>,
) -> Seq<Seq<char>>
    decreases catalog.len(),
{
    if catalog.len() == 0 {
        Seq::empty()
    } else {
        let before = missing_labels(catalog.drop_last(), config_dir, fs);
        let a = catalog.last();
        if fs.contains_key(example_path(config_dir, a.kind, a.name)) {
            before
        } else {
            before.push(example_label(a))
        }
    }
}

/// The example files to write, and how they are reported.
#[derive(Debug, Clone)]
pub struct ExamplesPlan {
    pub writes: Vec<TemplateFile>,
    pub created: Vec<String>,
}

/// The kind that a word names, in the singular or the plural.
pub fn kind_for_word(word: &str) -> (r: Option<TemplateKind>)
    ensures
        r == kind_from_word(word@),
{
    if str_eq(word, "baselines") || str_eq(word, "baseline") {
        Some(TemplateKind::Baselines)
    } else if str_eq(word, "outcomes") || str_eq(word, "outcome") {
        Some(TemplateKind::Outcomes)
    } else {
        None
    }
}

/// The directory of the example templates of one kind.
pub fn examples_dir_in(config_dir: &str, kind: TemplateKind) -> (r: String)
    ensures
        r@ == examples_dir(config_dir@, kind),
{
    let dir = kind_dir_in(config_dir, kind);
    join_path(dir.as_str(), "examples")
}

/// The file of the example template `name`.
pub fn example_path_in(config_dir: &str, kind: TemplateKind, name: &str) -> (r: String)
    ensures
        r@ == example_path(config_dir@, kind, name@),
{
    let dir = examples_dir_in(config_dir, kind);
    template_file(dir.as_str(), name)
}

impl CopyError {
    /// The words that tell the user what went wrong.
    pub fn message(&self, word: &str, name: &str) -> (r: String)
        ensures
            r@ == copy_error_text(*self, word@, name@),
    {
        match self {
            CopyError::UnknownKind => concat("unknown template kind: ", word),
            CopyError::NotFound => {
                let mut r = concat("example '", name);
                r.append("' not found in ");
                r.append(word);
                r.append("/examples/");
                r
            },
            CopyError::AlreadyExists => {
                let mut r = concat("'", name);
                r.append("' already exists in your ");
                r.append(word);
                r.append(" directory");
                r
            },
        }
    }
}

/// Plans the example files that are missing for a catalog.
pub fn plan_examples(catalog: &Vec<TemplateAsset>, config_dir: &str, files: &Vec<TemplateFile>) -> (plan:
    ExamplesPlan)
    ensures
        files_view(plan.writes@) == missing_examples(
            catalog_view(catalog@),
            config_dir@,
            files_map(files_view(files@)),
        ),
        texts_view(plan.created@) == missing_labels(
            catalog_view(catalog@),
            config_dir@,
            files_map(files_view(files@)),
        ),
{
    let ghost cat = catalog_view(catalog@);
    let ghost fs = files_map(files_view(files@));
    let mut writes: Vec<TemplateFile> = Vec::new();
    let mut created: Vec<String> = Vec::new();
    let mut i: usize = 0;
    proof {
        assert(files_view(writes@) =~= missing_examples(cat.take(0), config_dir@, fs));
        assert(texts_view(created@) =~= missing_labels(cat.take(0), config_dir@, fs));
    }
    while i < catalog.len()
        invariant
            i <= catalog.len(),
            cat == catalog_view(catalog@),
            fs == files_map(files_view(files@)),
            files_view(writes@) == missing_examples(cat.take(i as int), config_dir@, fs),
            texts_view(created@) == missing_labels(cat.take(i as int), config_dir@, fs),
        decreases catalog.len() - i,
    {
        let asset = &catalog[i];
        proof {
            let next = cat.take(i + 1);
            assert(next.drop_last() =~= cat.take(i as int));
            assert(next.last() == asset@);
        }
        let path = example_path_in(config_dir, asset.kind, asset.name.as_str());
        if lookup(files, path.as_str()).is_none() {
            let ghost old_writes = files_view(writes@);
            let ghost old_created = texts_view(created@);
            let mut label = concat(asset.kind.as_str(), "/examples/");
            label.append(asset.name.as_str());
            label.append(".toml");
            writes.push(TemplateFile { path, content: asset.content.clone() });
            created.push(label);
            proof {
                assert(files_view(writes@) =~= old_writes.push(
                    FileView {
                        path: example_path(config_dir@, asset@.kind, asset@.name),
                        content: asset@.content,
                    },
                ));
                assert(texts_view(created@) =~= old_created.push(example_label(asset@)));
            }
        }
        i += 1;
    }
    proof {
        assert(cat.take(catalog.len() as int) =~= cat);
    }
    ExamplesPlan { writes, created }
}

impl Config {
    /// Plans the copy of an example to the user's templates.
    pub fn copy_example(config_dir: &str, files: &Vec<TemplateFile>, kind: &str, name: &str) -> (r:
        Result<TemplateFile, CopyError>)
        ensures
            (match r {
                Ok(f) => Ok(f@),
                Err(e) => Err(e),
            }) == copy_example_spec(config_dir@, files_map(files_view(files@)), kind@, name@),
    {
        let which = match kind_for_word(kind) {
            Some(k) => k,
            None => {
                return Err(CopyError::UnknownKind);
            },
        };
        let source = example_path_in(config_dir, which, name);
        let content = match lookup(files, source.as_str()) {
            Some(c) => c,
            None => {
                return Err(CopyError::NotFound);
            },
        };
        let dest = template_path_in(config_dir, which, name);
        if lookup(files, dest.as_str()).is_some() {
            return Err(CopyError::AlreadyExists);
        }
        Ok(TemplateFile { path: dest, content: content.to_owned() })
    }

    /// The content of an example template.
    pub fn read_example(config_dir: &str, files: &Vec<TemplateFile>, kind: &str, name: &str) -> (r:
        Option<String>)
        ensures
            (match r {
                Some(c) => Some(c@),
                None => None,
            }) == (match kind_from_word(kind@) {
                Some(k) => read_file(
                    files_map(files_view(files@)),
                    example_path(config_dir@, k, name@),
                ),
                None => None,
            }),
    {
        match kind_for_word(kind) {
            None => None,
            Some(k) => {
                let path = example_path_in(config_dir, k, name);
                match lookup(files, path.as_str()) {
                    Some(c) => Some(c.to_owned()),
                    None => None,
                }
            },
        }
    }

    /// Plans the example files that are missing for the templates bundled
    /// with this release; an example that exists is left as it is.
    pub fn init_examples(config_dir: &str, files: &Vec<TemplateFile>) -> (plan: ExamplesPlan)
        ensures
            files_view(plan.writes@) == missing_examples(
                shipped_catalog(),
                config_dir@,
                files_map(files_view(files@)),
            ),
            texts_view(plan.created@) == missing_labels(
                shipped_catalog(),
                config_dir@,
                files_map(files_view(files@)),
            ),
    {
        let catalog = shipped_templates();
        plan_examples(&catalog, config_dir, files)
    }
}

} // verus!
