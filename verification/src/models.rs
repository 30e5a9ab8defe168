//! The Whisper model catalog, where model files live, and which model is
//! active.
use vstd::prelude::*;
use crate::text::str_equal;

verus! {

// ---------------------------------------------------------------------
// Paths
// ---------------------------------------------------------------------

/// The path that `Path::join` makes of a directory and a file name.
pub uninterp spec fn joined_path(dir: Seq<char>, file: Seq<char>) -> Seq<char>;

/// `Path::new(dir).join(file)`, as text. The result depends on the two
/// arguments alone and is named `joined_path`; its shape (separator, absolute
/// file names) is left to the name.
#[verifier::external_body]
pub(crate) fn join_path(dir: &str, file: &str) -> (r: String)
    ensures
        r@ == joined_path(dir@, file@),
{
    std::path::Path::new(dir).join(file).to_string_lossy().into_owned()
}


// ---------------------------------------------------------------------
// The catalog
// ---------------------------------------------------------------------

/// Whether a model file is on disk, and whether it is the active one.
#[derive(Debug, Clone, Copy, PartialEq, Eq, Structural)]
pub enum ModelStatus {
    NotDownloaded,
    Downloaded,
    Active,
}

/// A downloadable Whisper model.
#[derive(Debug, Clone)]
pub struct WhisperModel {
    pub id: String,
    pub name: String,
    pub size_bytes: u64,
    pub description: String,
    pub download_url: String,
    pub filename: String,
    pub recommended: bool,
    pub status: ModelStatus,
}

/// One catalog entry: id, name, size in bytes, description, file name and
/// whether it is the recommended model.
pub struct CatalogEntry {
    pub id: Seq<char>,
    pub name: Seq<char>,
    pub size_bytes: u64,
    pub description: Seq<char>,
    pub filename: Seq<char>,
    pub recommended: bool,
}

/// How many models the catalog lists.
pub open spec fn catalog_len() -> int {
    5
}

/// Where the model files are downloaded from.
pub open spec fn model_base_url() -> Seq<char> {
    "https://huggingface.co/ggerganov/whisper.cpp/resolve/main"@
}

/// The `i`-th catalog entry (`0 <= i < 5`).
pub open spec fn catalog_entry(i: int) -> CatalogEntry {
    if i == 0 {
        CatalogEntry {
            id: "tiny"@,
            name: "Tiny"@,
            size_bytes: 75_000_000,
            description: "Fastest, lowest accuracy. Good for testing."@,
            filename: "ggml-tiny.bin"@,
            recommended: false,
        }
    } else if i == 1 {
        CatalogEntry {
            id: "base"@,
            name: "Base"@,
            size_bytes: 142_000_000,
            description: "Recommended balance of speed and accuracy."@,
            filename: "ggml-base.bin"@,
            recommended: true,
        }
    } else if i == 2 {
        CatalogEntry {
            id: "small"@,
            name: "Small"@,
            size_bytes: 466_000_000,
            description: "Better accuracy, moderate speed."@,
            filename: "ggml-small.bin"@,
            recommended: false,
        }
    } else if i == 3 {
        CatalogEntry {
            id: "medium"@,
            name: "Medium"@,
            size_bytes: 1_500_000_000,
            description: "High accuracy, slower transcription."@,
            filename: "ggml-medium.bin"@,
            recommended: false,
        }
    } else {
        CatalogEntry {
            id: "large-v3"@,
            name: "Large v3"@,
            size_bytes: 3_100_000_000,
            description: "Best accuracy, requires significant resources."@,
            filename: "ggml-large-v3.bin"@,
            recommended: false,
        }
    }
}

/// The download address of a model file.
pub open spec fn download_url_of(filename: Seq<char>) -> Seq<char> {
    model_base_url() + "/"@ + filename
}

/// The slot of a model id in the catalog from `j` on, or `5` when no model
/// has that id.
pub open spec fn model_slot_from(id: Seq<char>, j: int) -> int
    decreases 5 - j,
{
    if j >= 5 || j < 0 {
        5
    } else if id == catalog_entry(j).id {
        j
    } else {
        model_slot_from(id, j + 1)
    }
}

/// The slot of a model id in the catalog, or `5` when no model has that id.
pub open spec fn model_slot(id: Seq<char>) -> int {
    model_slot_from(id, 0)
}

/// The status of a model file: not downloaded when it is not on disk, active
/// when it is on disk and is the active model, downloaded otherwise.
pub open spec fn model_status(present: bool, active: Option<Seq<char>>, filename: Seq<char>) -> ModelStatus {
    if !present {
        ModelStatus::NotDownloaded
    } else if active == Some(filename) {
        ModelStatus::Active
    } else {
        ModelStatus::Downloaded
    }
}

/// The `i`-th catalog entry as literals.
fn catalog_literals(i: usize) -> (r: (&'static str, &'static str, u64, &'static str, &'static str, bool))
    requires
        i < 5,
    ensures
        r.0@ == catalog_entry(i as int).id,
        r.1@ == catalog_entry(i as int).name,
        r.2 == catalog_entry(i as int).size_bytes,
        r.3@ == catalog_entry(i as int).description,
        r.4@ == catalog_entry(i as int).filename,
        r.5 == catalog_entry(i as int).recommended,
{
    if i == 0 {
        ("tiny", "Tiny", 75_000_000, "Fastest, lowest accuracy. Good for testing.", "ggml-tiny.bin", false)
    } else if i == 1 {
        ("base", "Base", 142_000_000, "Recommended balance of speed and accuracy.", "ggml-base.bin", true)
    } else if i == 2 {
        ("small", "Small", 466_000_000, "Better accuracy, moderate speed.", "ggml-small.bin", false)
    } else if i == 3 {
        ("medium", "Medium", 1_500_000_000, "High accuracy, slower transcription.", "ggml-medium.bin", false)
    } else {
        (
            "large-v3",
            "Large v3",
            3_100_000_000,
            "Best accuracy, requires significant resources.",
            "ggml-large-v3.bin",
            false,
        )
    }
}

/// The slot of a model id in the catalog, `5` when no model has that id.
pub fn find_model(model_id: &str) -> (i: usize)
    ensures
        i == model_slot(model_id@),
        i <= 5,
{
    proof {
        lemma_model_slot_range(model_id@, 0);
    }
    let mut j: usize = 0;
    while j < 5
        invariant
            j <= 5,
            model_slot_from(model_id@, 0) == model_slot_from(model_id@, j as int),
        decreases 5 - j,
    {
        if str_equal(model_id, catalog_literals(j).0) {
            return j;
        }
        j = j + 1;
    }
    5
}

/// The file name of the `i`-th catalog model.
pub fn catalog_filename(i: usize) -> (r: &'static str)
    requires
        i < 5,
    ensures
        r@ == catalog_entry(i as int).filename,
{
    catalog_literals(i).4
}

/// The download address of a model file.
pub fn download_url(filename: &str) -> (r: String)
    ensures
        r@ == download_url_of(filename@),
{
    let mut u = String::from_str("https://huggingface.co/ggerganov/whisper.cpp/resolve/main");
    u.append("/");
    u.append(filename);
    u
}

/// The status of a model file, once whether it is on disk is known.
pub fn status_for(present: bool, active: &Option<String>, filename: &str) -> (r: ModelStatus)
    ensures
        r == model_status(present, match active {
            Some(a) => Some(a@),
            None => None,
        }, filename@),
{
    if !present {
        ModelStatus::NotDownloaded
    } else {
        match active {
            Some(a) => {
                if str_equal(a.as_str(), filename) {
                    ModelStatus::Active
                } else {
                    ModelStatus::Downloaded
                }
            },
            None => ModelStatus::Downloaded,
        }
    }
}

// ---------------------------------------------------------------------
// The manager
// ---------------------------------------------------------------------

/// Why a model could not be located.
#[derive(Debug, Clone)]
pub enum ModelError {
    /// No catalog model has this id.
    NotFound(String),
    /// The model's file is not on disk.
    NotDownloaded(String),
}

impl ModelError {
    /// The message shown for the error.
    pub fn message(&self) -> (r: String)
        ensures
            r@ == match self {
                ModelError::NotFound(id) => "Model not found: "@ + id@,
                ModelError::NotDownloaded(id) => "Model not downloaded: "@ + id@,
            },
    {
        match self {
            ModelError::NotFound(id) => {
                let mut m = String::from_str("Model not found: ");
                m.append(id.as_str());
                m
            },
            ModelError::NotDownloaded(id) => {
                let mut m = String::from_str("Model not downloaded: ");
                m.append(id.as_str());
                m
            },
        }
    }
}

/// Where the model files live and which one is active.
pub struct ModelManager {
    models_dir: String,
    active_model: Option<String>,
}

/// The manager as values: the models directory and the active model's file name.
pub struct ModelManagerView {
    pub models_dir: Seq<char>,
    pub active_model: Option<Seq<char>>,
}

impl View for ModelManager {
    type V = ModelManagerView;

    closed spec fn view(&self) -> ModelManagerView {
        ModelManagerView {
            models_dir: self.models_dir@,
            active_model: match self.active_model {
                Some(a) => Some(a@),
                None => None,
            },
        }
    }
}

/// A manager after the model `id` is made active: the same directory, with
/// that model's file as the active one.
pub open spec fn activated(m: ModelManagerView, id: Seq<char>) -> ModelManagerView {
    ModelManagerView {
        models_dir: m.models_dir,
        active_model: Some(catalog_entry(model_slot(id)).filename),
    }
}

/// Whether a listed model holds the `i`-th catalog entry.
pub open spec fn is_catalog_model(m: WhisperModel, i: int) -> bool {
    let e = catalog_entry(i);
    &&& m.id@ == e.id
    &&& m.name@ == e.name
    &&& m.size_bytes == e.size_bytes
    &&& m.description@ == e.description
    &&& m.download_url@ == download_url_of(e.filename)
    &&& m.filename@ == e.filename
    &&& m.recommended == e.recommended
}

/// The file names tried, in order, when a model is loaded at start-up.
pub open spec fn autoload_file(i: int) -> Seq<char> {
    if i == 0 {
        "ggml-base.bin"@
    } else if i == 1 {
        "ggml-small.bin"@
    } else if i == 2 {
        "ggml-tiny.bin"@
    } else if i == 3 {
        "ggml-medium.bin"@
    } else {
        "ggml-large-v3.bin"@
    }
}

fn autoload_file_str(i: usize) -> (r: &'static str)
    requires
        i < 5,
    ensures
        r@ == autoload_file(i as int),
{
    if i == 0 {
        "ggml-base.bin"
    } else if i == 1 {
        "ggml-small.bin"
    } else if i == 2 {
        "ggml-tiny.bin"
    } else if i == 3 {
        "ggml-medium.bin"
    } else {
        "ggml-large-v3.bin"
    }
}

/// What trying one start-up candidate came to.
#[derive(Debug, Clone, Copy, PartialEq, Eq, Structural)]
pub enum LoadOutcome {
    /// Its file is not on disk.
    Missing,
    /// Its file is on disk but the model did not load.
    Failed,
    /// The model loaded.
    Loaded,
}

/// The start-up search for a model to load: after the candidate at `i` came
/// to `outcome`, the next candidate to try; none once a model has loaded or
/// no candidate is left.
pub fn autoload_next(i: usize, outcome: LoadOutcome) -> (r: Option<usize>)
    requires
        i < 5,
    ensures
        r == (if outcome == LoadOutcome::Loaded || i + 1 >= 5 {
            None
        } else {
            Some((i + 1) as usize)
        }),
{
    if outcome == LoadOutcome::Loaded || i + 1 >= 5 {
        None
    } else {
        Some(i + 1)
    }
}

impl ModelManager {
    /// A manager for the models in `models_dir`, with no active model.
    pub fn new(models_dir: String) -> (r: Self)
        ensures
            r@.models_dir == models_dir@,
            r@.active_model is None,
    {
        ModelManager { models_dir, active_model: None }
    }

    /// The directory that holds the model files.
    pub fn models_dir(&self) -> (r: &String)
        ensures
            r@ == self@.models_dir,
    {
        &self.models_dir
    }

    /// The file name of the active model, if any.
    pub fn active_model(&self) -> (r: &Option<String>)
        ensures
            match r {
                Some(a) => self@.active_model == Some(a@),
                None => self@.active_model is None,
            },
    {
        &self.active_model
    }

    /// The path of a file in the models directory.
    pub fn file_path(&self, filename: &str) -> (r: String)
        ensures
            r@ == joined_path(self@.models_dir, filename@),
    {
        join_path(self.models_dir.as_str(), filename)
    }

    /// The path of a model's file; `None` when no catalog model has the id.
    /// This is the file whose presence on disk `model_path` and
    /// `set_active_model` are told of.
    pub fn model_file_path(&self, model_id: &str) -> (r: Option<String>)
        ensures
            r is None <==> model_slot(model_id@) == catalog_len(),
            r matches Some(p) ==> p@ == joined_path(
                self@.models_dir,
                catalog_entry(model_slot(model_id@)).filename,
            ),
    {
        let i = find_model(model_id);
        if i == 5 {
            None
        } else {
            Some(join_path(self.models_dir.as_str(), catalog_filename(i)))
        }
    }

    /// The paths of the catalog's model files, in catalog order. These are
    /// the files whose presence on disk `available_models` is told of.
    pub fn catalog_file_paths(&self) -> (r: Vec<String>)
        ensures
            r@.len() == catalog_len(),
            forall|i: int|
                0 <= i < catalog_len() ==> (#[trigger] r@[i])@ == joined_path(
                    self@.models_dir,
                    catalog_entry(i).filename,
                ),
    {
        let mut v: Vec<String> = Vec::new();
        let mut i: usize = 0;
        while i < 5
            invariant
                i <= 5,
                v@.len() == i,
                forall|k: int|
                    0 <= k < i ==> (#[trigger] v@[k])@ == joined_path(
                        self@.models_dir,
                        catalog_entry(k).filename,
                    ),
            decreases 5 - i,
        {
            v.push(join_path(self.models_dir.as_str(), catalog_filename(i)));
            i = i + 1;
        }
        v
    }

    /// The status of a model file, given whether the file (at
    /// `file_path(filename)`) is on disk: not downloaded when it is not,
    /// active when it is the active model, downloaded otherwise.
    pub fn get_model_status(&self, filename: &str, present: bool) -> (r: ModelStatus)
        ensures
            r == model_status(present, self@.active_model, filename@),
    {
        status_for(present, &self.active_model, filename)
    }

    /// The catalog, in order, each model with the status that follows from
    /// whether its file is on disk (`present[i]` for the file at
    /// `catalog_file_paths()[i]`) and from which model is active.
    pub fn available_models(&self, present: &[bool]) -> (r: Vec<WhisperModel>)
        requires
            present@.len() == catalog_len(),
        ensures
            r@.len() == catalog_len(),
            forall|i: int|
                0 <= i < catalog_len() ==> is_catalog_model(#[trigger] r@[i], i) && r@[i].status
                    == model_status(present@[i], self@.active_model, catalog_entry(i).filename),
    {
        let mut v: Vec<WhisperModel> = Vec::new();
        let mut i: usize = 0;
        while i < 5
            invariant
                i <= 5,
                present@.len() == 5,
                v@.len() == i,
                forall|k: int|
                    0 <= k < i ==> is_catalog_model(#[trigger] v@[k], k) && v@[k].status
                        == model_status(present@[k], self@.active_model, catalog_entry(k).filename),
            decreases 5 - i,
        {
            let (id, name, size_bytes, description, filename, recommended) = catalog_literals(i);
            let m = WhisperModel {
                id: String::from_str(id),
                name: String::from_str(name),
                size_bytes,
                description: String::from_str(description),
                download_url: download_url(filename),
                filename: String::from_str(filename),
                recommended,
                status: status_for(present[i], &self.active_model, filename),
            };
            v.push(m);
            i = i + 1;
        }
        v
    }

    /// The path of a model's file, given whether that file (at
    /// `model_file_path(model_id)`) is on disk: an error when no catalog
    /// model has the id, else the path when the file is there, else an
    /// error saying it is not downloaded.
    pub fn model_path(&self, model_id: &str, present: bool) -> (r: Result<String, ModelError>)
        ensures
            model_slot(model_id@) == catalog_len() ==> (r matches Err(ModelError::NotFound(x))
                && x@ == model_id@),
            model_slot(model_id@) < catalog_len() && present ==> (r matches Ok(p) && p@
                == joined_path(self@.models_dir, catalog_entry(model_slot(model_id@)).filename)),
            model_slot(model_id@) < catalog_len() && !present ==> (r matches Err(
                ModelError::NotDownloaded(x),
            ) && x@ == model_id@),
    {
        let i = find_model(model_id);
        if i == 5 {
            return Err(ModelError::NotFound(String::from_str(model_id)));
        }
        if !present {
            return Err(ModelError::NotDownloaded(String::from_str(model_id)));
        }
        Ok(join_path(self.models_dir.as_str(), catalog_filename(i)))
    }

    /// Makes a model the active one and returns its file's path, given
    /// whether that file (at `model_file_path(model_id)`) is on disk; the
    /// errors are those of `model_path`, and on an error nothing changes.
    pub fn set_active_model(&mut self, model_id: &str, present: bool) -> (r: Result<String, ModelError>)
        ensures
            model_slot(model_id@) == catalog_len() ==> (r matches Err(ModelError::NotFound(x))
                && x@ == model_id@),
            model_slot(model_id@) < catalog_len() && !present ==> (r matches Err(
                ModelError::NotDownloaded(x),
            ) && x@ == model_id@),
            r is Err ==> final(self)@ == old(self)@,
            model_slot(model_id@) < catalog_len() && present ==> {
                &&& r matches Ok(p)
                &&& p@ == joined_path(
                    old(self)@.models_dir,
                    catalog_entry(model_slot(model_id@)).filename,
                )
                &&& final(self)@ == activated(old(self)@, model_id@)
            },
    {
        let path = self.model_path(model_id, present)?;
        let i = find_model(model_id);
        self.active_model = Some(String::from_str(catalog_filename(i)));
        Ok(path)
    }

    /// Where a model is downloaded from and the path it is saved to; an error
    /// when no catalog model has the id.
    pub fn download_target(&self, model_id: &str) -> (r: Result<(String, String), ModelError>)
        ensures
            r is Err <==> model_slot(model_id@) == catalog_len(),
            r matches Err(e) ==> e matches ModelError::NotFound(x) && x@ == model_id@,
            r matches Ok(t) ==> {
                let f = catalog_entry(model_slot(model_id@)).filename;
                &&& t.0@ == download_url_of(f)
                &&& t.1@ == joined_path(self@.models_dir, f)
            },
    {
        let i = find_model(model_id);
        if i == 5 {
            return Err(ModelError::NotFound(String::from_str(model_id)));
        }
        let f = catalog_filename(i);
        Ok((download_url(f), join_path(self.models_dir.as_str(), f)))
    }

    /// The paths tried, in order, when a model is loaded at start-up.
    pub fn autoload_paths(&self) -> (r: Vec<String>)
        ensures
            r@.len() == 5,
            forall|i: int|
                0 <= i < 5 ==> (#[trigger] r@[i])@ == joined_path(
                    self@.models_dir,
                    autoload_file(i),
                ),
    {
        let mut v: Vec<String> = Vec::new();
        let mut i: usize = 0;
        while i < 5
            invariant
                i <= 5,
                v@.len() == i,
                forall|k: int|
                    0 <= k < i ==> (#[trigger] v@[k])@ == joined_path(
                        self@.models_dir,
                        autoload_file(k),
                    ),
            decreases 5 - i,
        {
            v.push(join_path(self.models_dir.as_str(), autoload_file_str(i)));
            i = i + 1;
        }
        v
    }
}

// ---------------------------------------------------------------------
// Disk usage
// ---------------------------------------------------------------------

/// A file name whose extension, as `Path::extension` reads it, is `bin`:
/// the part after its last dot is `bin`, and something comes before that
/// dot.
pub open spec fn is_bin_name(name: Seq<char>) -> bool {
    &&& name.len() >= 5
    &&& name.subrange(name.len() - 4, name.len() as int) == ".bin"@
}

/// The bytes taken by the model files (`.bin`) among `(name, size)` pairs.
pub open spec fn bin_files_size(files: Seq<(String, u64)>) -> int
    decreases files.len(),
{
    if files.len() == 0 {
        0
    } else {
        bin_files_size(files.drop_last()) + if is_bin_name(files.last().0@) {
            files.last().1 as int
        } else {
            0
        }
    }
}

/// Whether a file name has the extension `bin`.
pub fn is_bin_file(name: &str) -> (r: bool)
    ensures
        r == is_bin_name(name@),
{
    proof {
        reveal_strlit(".bin");
    }
    let cs = crate::text::chars_of(name);
    let n = cs.len();
    if n < 5 {
        return false;
    }
    let r = cs[n - 4] == '.' && cs[n - 3] == 'b' && cs[n - 2] == 'i' && cs[n - 1] == 'n';
    proof {
        let tail = name@.subrange(n - 4, n as int);
        if r {
            assert(tail =~= ".bin"@);
        } else {
            assert(tail[0] != '.' || tail[1] != 'b' || tail[2] != 'i' || tail[3] != 'n');
        }
    }
    r
}

/// No prefix of a listing takes more room than the whole listing.
proof fn lemma_bin_files_size_prefix(files: Seq<(String, u64)>, i: int)
    requires
        0 <= i <= files.len(),
    ensures
        0 <= bin_files_size(files.take(i)) <= bin_files_size(files),
    decreases files.len(),
{
    if i == files.len() {
        assert(files.take(i) =~= files);
        if files.len() > 0 {
            lemma_bin_files_size_prefix(files.drop_last(), 0);
        }
    } else {
        assert(files.take(i) =~= files.drop_last().take(i));
        lemma_bin_files_size_prefix(files.drop_last(), i);
    }
}

impl ModelManager {
    /// The bytes that the model files take, given the `(name, size)` of each
    /// file in the models directory (nothing when the directory is missing):
    /// the sizes of the `.bin` files, added up.
    pub fn disk_usage(&self, files: &[(String, u64)]) -> (r: u64)
        requires
            bin_files_size(files@) <= u64::MAX,
        ensures
            r == bin_files_size(files@),
    {
        let n = files.len();
        let mut total: u64 = 0;
        let mut i: usize = 0;
        while i < n
            invariant
                n == files.len(),
                0 <= i <= n,
                bin_files_size(files@) <= u64::MAX,
                total == bin_files_size(files@.take(i as int)),
            decreases n - i,
        {
            proof {
                lemma_bin_files_size_prefix(files@, i + 1);
                assert(files@.take(i + 1).drop_last() =~= files@.take(i as int));
            }
            if is_bin_file(files[i].0.as_str()) {
                total = total + files[i].1;
            }
            i = i + 1;
        }
        proof {
            assert(files@.take(n as int) =~= files@);
        }
        total
    }
}

// ---------------------------------------------------------------------
// Laws
// ---------------------------------------------------------------------

/// How the disk usage of the model files adds up: an empty listing takes
/// nothing; one more file adds its size when it is a model file (its name
/// ends in `.bin` after something) and nothing otherwise; so a single model
/// file of size `n` takes `n`. A name made of something then `.bin` is a
/// model file, and `.bin` alone is not.
pub proof fn law_disk_usage(files: Seq<(String, u64)>, name: String, size: u64, stem: Seq<char>)
    ensures
        bin_files_size(Seq::empty()) == 0,
        bin_files_size(files.push((name, size))) == bin_files_size(files) + if is_bin_name(name@) {
            size as int
        } else {
            0
        },
        is_bin_name(name@) ==> bin_files_size(seq![(name, size)]) == size,
        stem.len() > 0 ==> is_bin_name(stem + ".bin"@),
        !is_bin_name(".bin"@),
{
    reveal_strlit(".bin");
    assert(files.push((name, size)).drop_last() =~= files);
    assert(seq![(name, size)].drop_last() =~= Seq::<(String, u64)>::empty());
    let n = stem + ".bin"@;
    assert(n.subrange(n.len() - 4, n.len() as int) =~= ".bin"@);
}

proof fn lemma_catalog_filenames_distinct()
    ensures
        forall|i: int, j: int|
            0 <= i < 5 && 0 <= j < 5 && i != j ==> #[trigger] catalog_entry(i).filename
                != #[trigger] catalog_entry(j).filename,
{
    reveal_strlit("ggml-tiny.bin");
    reveal_strlit("ggml-base.bin");
    reveal_strlit("ggml-small.bin");
    reveal_strlit("ggml-medium.bin");
    reveal_strlit("ggml-large-v3.bin");
    assert("ggml-tiny.bin"@.len() == 13 && "ggml-tiny.bin"@[5] == 't');
    assert("ggml-base.bin"@.len() == 13 && "ggml-base.bin"@[5] == 'b');
    assert("ggml-small.bin"@.len() == 14 && "ggml-small.bin"@[5] == 's');
    assert("ggml-medium.bin"@.len() == 15);
    assert("ggml-large-v3.bin"@.len() == 17);
}

/// Once a model is made active, it is the one whose status reads `Active`
/// when its file is on disk; every other catalog model on disk reads
/// `Downloaded`, and a model not on disk reads `NotDownloaded`.
pub proof fn law_one_active_model(id: Seq<char>, j: int, present: bool)
    requires
        model_slot(id) < catalog_len(),
        0 <= j < catalog_len(),
    ensures
        model_status(
            present,
            Some(catalog_entry(model_slot(id)).filename),
            catalog_entry(j).filename,
        ) == (if !present {
            ModelStatus::NotDownloaded
        } else if j == model_slot(id) {
            ModelStatus::Active
        } else {
            ModelStatus::Downloaded
        }),
{
    lemma_catalog_filenames_distinct();
    lemma_model_slot_range(id, 0);
    let i = model_slot(id);
    if present && j != i {
        assert(catalog_entry(i).filename != catalog_entry(j).filename);
    }
}

/// Making a model active keeps the models directory; making it active again
/// changes nothing; and afterwards it is the one model on disk whose status
/// reads `Active`, every other catalog model on disk reading `Downloaded`.
pub proof fn law_activate(m: ModelManagerView, id: Seq<char>, j: int, present: bool)
    requires
        model_slot(id) < catalog_len(),
        0 <= j < catalog_len(),
    ensures
        activated(m, id).models_dir == m.models_dir,
        activated(activated(m, id), id) == activated(m, id),
        model_status(present, activated(m, id).active_model, catalog_entry(j).filename) == (if !present {
            ModelStatus::NotDownloaded
        } else if j == model_slot(id) {
            ModelStatus::Active
        } else {
            ModelStatus::Downloaded
        }),
{
    law_one_active_model(id, j, present);
}

/// `model_slot_from` gives either `5` or a slot from `j` on.
proof fn lemma_model_slot_range(id: Seq<char>, j: int)
    requires
        0 <= j <= 5,
    ensures
        j <= model_slot_from(id, j) <= 5,
        model_slot_from(id, j) < 5 ==> catalog_entry(model_slot_from(id, j)).id == id,
    decreases 5 - j,
{
    if j < 5 {
        lemma_model_slot_range(id, j + 1);
    }
}

/// A model id is found exactly when some catalog entry has it, and then the
/// entry found has that id.
pub proof fn law_model_lookup(id: Seq<char>)
    ensures
        model_slot(id) < catalog_len() <==> exists|i: int|
            0 <= i < catalog_len() && #[trigger] catalog_entry(i).id == id,
        model_slot(id) < catalog_len() ==> catalog_entry(model_slot(id)).id == id,
{
    lemma_model_slot_range(id, 0);
    if exists|i: int| 0 <= i < catalog_len() && #[trigger] catalog_entry(i).id == id {
        let i = choose|i: int| 0 <= i < catalog_len() && #[trigger] catalog_entry(i).id == id;
        reveal_with_fuel(model_slot_from, 6);
        assert(model_slot(id) <= i);
    }
}

} // verus!
