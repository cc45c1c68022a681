use vstd::prelude::*;

verus! {

/// The size class of a speech model.
#[derive(Debug, Clone, Copy, PartialEq, Eq, Structural)]
pub enum ModelKind {
    Tiny,
    Base,
    Small,
    Medium,
    Large,
}

/// The magic number at the start of a GGML model file.
pub const GGML_MAGIC: u32 = 0x67676d6c;

/// The little-endian 32-bit number in `b[at..at + 4]`.
pub open spec fn le_u32(b: Seq<u8>, at: int) -> int {
    b[at] + 256 * b[at + 1] + 65536 * b[at + 2] + 16777216 * b[at + 3]
}

/// The model kind that has `n_audio_layer` encoder layers.
pub open spec fn kind_for_layers(n_audio_layer: u32) -> Option<ModelKind> {
    if n_audio_layer == 4 {
        Some(ModelKind::Tiny)
    } else if n_audio_layer == 6 {
        Some(ModelKind::Base)
    } else if n_audio_layer == 12 {
        Some(ModelKind::Small)
    } else if n_audio_layer == 24 {
        Some(ModelKind::Medium)
    } else if n_audio_layer == 32 {
        Some(ModelKind::Large)
    } else {
        None
    }
}

/// The number of encoder layers a model of kind `k` has.
pub open spec fn audio_layers(k: ModelKind) -> u32 {
    match k {
        ModelKind::Tiny => 4,
        ModelKind::Base => 6,
        ModelKind::Small => 12,
        ModelKind::Medium => 24,
        ModelKind::Large => 32,
    }
}

/// Conservative lower bound, in bytes, of a complete model file of kind `k`.
pub open spec fn min_model_size_spec(k: ModelKind) -> u64 {
    match k {
        ModelKind::Tiny => 70_000_000,
        ModelKind::Base => 140_000_000,
        ModelKind::Small => 450_000_000,
        ModelKind::Medium => 1_400_000_000,
        ModelKind::Large => 2_800_000_000,
    }
}

/// The name of a model kind.
pub open spec fn kind_name_spec(k: ModelKind) -> Seq<char> {
    match k {
        ModelKind::Tiny => "tiny"@,
        ModelKind::Base => "base"@,
        ModelKind::Small => "small"@,
        ModelKind::Medium => "medium"@,
        ModelKind::Large => "large"@,
    }
}

impl ModelKind {
    /// The model kind that has `n_audio_layer` encoder layers, if it is a known one.
    pub fn from_audio_layers(n_audio_layer: u32) -> (r: Option<ModelKind>)
        ensures
            r == kind_for_layers(n_audio_layer),
    {
        match n_audio_layer {
            4 => Some(ModelKind::Tiny),
            6 => Some(ModelKind::Base),
            12 => Some(ModelKind::Small),
            24 => Some(ModelKind::Medium),
            32 => Some(ModelKind::Large),
            _ => None,
        }
    }

    /// Lower bound, in bytes, of a complete model file of this kind.
    pub fn min_size(&self) -> (r: u64)
        ensures
            r == min_model_size_spec(*self),
    {
        match self {
            ModelKind::Tiny => 70_000_000,
            ModelKind::Base => 140_000_000,
            ModelKind::Small => 450_000_000,
            ModelKind::Medium => 1_400_000_000,
            ModelKind::Large => 2_800_000_000,
        }
    }

    /// The name of the kind.
    pub fn name(&self) -> (r: &'static str)
        ensures
            r@ == kind_name_spec(*self),
    {
        match self {
            ModelKind::Tiny => "tiny",
            ModelKind::Base => "base",
            ModelKind::Small => "small",
            ModelKind::Medium => "medium",
            ModelKind::Large => "large",
        }
    }
}

/// The kind read from a layer count is the one kind with that many layers, and no kind
/// is read from any other count.
pub proof fn lemma_kind_matches_layers(n: u32, k: ModelKind)
    ensures
        kind_for_layers(n) == Some(k) <==> audio_layers(k) == n,
        kind_for_layers(n) is None <==> (forall|j: ModelKind| audio_layers(j) != n),
{
    if kind_for_layers(n) is None {
        assert forall|j: ModelKind| audio_layers(j) != n by {
            match j {
                ModelKind::Tiny => {},
                ModelKind::Base => {},
                ModelKind::Small => {},
                ModelKind::Medium => {},
                ModelKind::Large => {},
            }
        }
    } else {
        assert(audio_layers(kind_for_layers(n).unwrap()) == n);
    }
}

/// A model with more layers needs a larger file.
pub proof fn lemma_min_size_grows_with_layers(a: ModelKind, b: ModelKind)
    ensures
        audio_layers(a) < audio_layers(b) ==> min_model_size_spec(a) < min_model_size_spec(b),
{
}

/// A model file whose header passed the checks.
#[derive(Debug, Clone, Copy, PartialEq, Eq, Structural)]
pub enum ModelCheck {
    /// A model of a known kind, large enough for it.
    Valid(ModelKind),
    /// A model of an unknown kind, whose size is not checked.
    UnknownKind(u32),
}

/// Why a model file is refused.
#[derive(Debug, Clone, Copy, PartialEq, Eq, Structural)]
pub enum ModelFileError {
    /// The file does not start with the GGML magic number (the number it holds).
    BadMagic(u32),
    /// The file is smaller than a model of its kind can be.
    Truncated { kind: ModelKind, file_size: u64, min_size: u64 },
}

/// The verdict on a model file with header bytes `header` and size `file_size`.
pub open spec fn model_check(header: Seq<u8>, file_size: u64) -> Result<ModelCheck, ModelFileError> {
    let magic = le_u32(header, 0) as u32;
    let layers = le_u32(header, 20) as u32;
    if magic != GGML_MAGIC {
        Err(ModelFileError::BadMagic(magic))
    } else {
        match kind_for_layers(layers) {
            None => Ok(ModelCheck::UnknownKind(layers)),
            Some(kind) => if file_size < min_model_size_spec(kind) {
                Err(
                    ModelFileError::Truncated {
                        kind,
                        file_size,
                        min_size: min_model_size_spec(kind),
                    },
                )
            } else {
                Ok(ModelCheck::Valid(kind))
            },
        }
    }
}

fn read_le_u32(b: &[u8], at: usize) -> (r: u32)
    requires
        at + 4 <= b@.len(),
    ensures
        r == le_u32(b@, at as int),
{
    b[at] as u32 + 256 * (b[at + 1] as u32) + 65536 * (b[at + 2] as u32) + 16777216 * (b[at
        + 3] as u32)
}

/// Checks the header of a GGML model file (its first bytes: magic number, then the
/// hyper-parameters, the encoder layer count at offset 20) against the file's size, so
/// that a truncated file is refused before it is loaded.
pub fn check_model_header(header: &[u8], file_size: u64) -> (r: Result<ModelCheck, ModelFileError>)
    requires
        header@.len() >= 24,
    ensures
        r == model_check(header@, file_size),
        // a wrong magic number is refused, and carries the number read
        (r matches Err(ModelFileError::BadMagic(m))) <==> le_u32(header@, 0) != GGML_MAGIC,
        r matches Err(ModelFileError::BadMagic(m)) ==> m == le_u32(header@, 0),
        // a known kind is the one with as many layers as the header says, and its file
        // is accepted exactly when it reaches that kind's minimum size
        r matches Ok(ModelCheck::Valid(k)) ==> audio_layers(k) == le_u32(header@, 20)
            && file_size >= min_model_size_spec(k),
        r matches Err(ModelFileError::Truncated { kind, file_size: f, min_size }) ==> audio_layers(
            kind,
        ) == le_u32(header@, 20) && f == file_size && min_size == min_model_size_spec(kind)
            && file_size < min_size,
        // an unknown layer count matches no kind and skips the size check
        r matches Ok(ModelCheck::UnknownKind(n)) ==> n == le_u32(header@, 20) && forall|
            j: ModelKind,
        | audio_layers(j) != n,
{
    let magic = read_le_u32(header, 0);
    if magic != GGML_MAGIC {
        return Err(ModelFileError::BadMagic(magic));
    }
    let n_audio_layer = read_le_u32(header, 20);
    proof {
        assert forall|j: ModelKind| kind_for_layers(n_audio_layer) is None implies audio_layers(j)
            != n_audio_layer by {
            lemma_kind_matches_layers(n_audio_layer, j);
        }
        if kind_for_layers(n_audio_layer) is Some {
            lemma_kind_matches_layers(n_audio_layer, kind_for_layers(n_audio_layer).unwrap());
        }
    }
    match ModelKind::from_audio_layers(n_audio_layer) {
        None => Ok(ModelCheck::UnknownKind(n_audio_layer)),
        Some(kind) => {
            let min_size = kind.min_size();
            if file_size < min_size {
                Err(ModelFileError::Truncated { kind, file_size, min_size })
            } else {
                Ok(ModelCheck::Valid(kind))
            }
        },
    }
}

/// The number of inference threads: the configured number when positive, otherwise one
/// less than the available parallelism (4 when unknown), and at least one.
pub fn resolve_thread_count(threads_config: i32, available: Option<usize>) -> (r: i32)
    requires
        threads_config <= 0 ==> (available matches Some(n) ==> n <= i32::MAX),
    ensures
        threads_config > 0 ==> r == threads_config,
        threads_config <= 0 ==> r == (match available {
            Some(n) => if n - 1 > 1 {
                n - 1
            } else {
                1
            },
            None => 3,
        }),
        r >= 1,
{
    if threads_config > 0 {
        threads_config
    } else {
        let num_cpus: i32 = match available {
            Some(n) => n as i32,
            None => 4,
        };
        let t = num_cpus - 1;
        if t > 1 {
            t
        } else {
            1
        }
    }
}

/// A directory where a development build looks for a model file.
#[derive(Debug, Clone, Copy, PartialEq, Eq, Structural)]
pub enum ModelDir {
    /// The project directory given by the caller.
    Project,
    /// The working directory.
    Current,
    /// The parent of the working directory.
    Parent,
}

/// The places a development build tries, in order: each model file name (the small
/// model first, then the base one), in the project directory when there is one, then
/// in the working directory, then in its parent.
pub open spec fn dev_model_candidates(has_project_dir: bool) -> Seq<(ModelDir, Seq<char>)> {
    if has_project_dir {
        seq![
            (ModelDir::Project, "ggml-small.bin"@),
            (ModelDir::Current, "ggml-small.bin"@),
            (ModelDir::Parent, "ggml-small.bin"@),
            (ModelDir::Project, "ggml-base.bin"@),
            (ModelDir::Current, "ggml-base.bin"@),
            (ModelDir::Parent, "ggml-base.bin"@),
        ]
    } else {
        seq![
            (ModelDir::Current, "ggml-small.bin"@),
            (ModelDir::Parent, "ggml-small.bin"@),
            (ModelDir::Current, "ggml-base.bin"@),
            (ModelDir::Parent, "ggml-base.bin"@),
        ]
    }
}

/// The model files a development build tries, in the order it tries them.
pub fn model_search_order(has_project_dir: bool) -> (r: Vec<(ModelDir, &'static str)>)
    ensures
        r@.len() == dev_model_candidates(has_project_dir).len(),
        forall|i: int|
            0 <= i < r@.len() ==> (#[trigger] r@[i]).0 == dev_model_candidates(has_project_dir)[i].0
                && r@[i].1@ == dev_model_candidates(has_project_dir)[i].1,
{
    let names: [&'static str; 2] = ["ggml-small.bin", "ggml-base.bin"];
    let mut r: Vec<(ModelDir, &'static str)> = Vec::new();
    let mut k: usize = 0;
    while k < 2
        invariant
            0 <= k <= 2,
            names@ == seq!["ggml-small.bin", "ggml-base.bin"],
            r@.len() == k * (if has_project_dir { 3int } else { 2int }),
            forall|i: int|
                0 <= i < r@.len() ==> (#[trigger] r@[i]).0 == dev_model_candidates(
                    has_project_dir,
                )[i].0 && r@[i].1@ == dev_model_candidates(has_project_dir)[i].1,
        decreases 2 - k,
    {
        let name = names[k];
        if has_project_dir {
            r.push((ModelDir::Project, name));
        }
        r.push((ModelDir::Current, name));
        r.push((ModelDir::Parent, name));
        k += 1;
    }
    r
}

/// Sample rate of the recorder, in Hz.
pub const SAMPLE_RATE: u32 = 16000;

/// Longest recording, in seconds.
pub const MAX_DURATION_SECS: usize = 60;

/// Largest number of samples a recording buffer takes in.
pub fn max_recording_samples() -> (r: usize)
    ensures
        r == SAMPLE_RATE * MAX_DURATION_SECS,
{
    SAMPLE_RATE as usize * MAX_DURATION_SECS
}

/// Whether a recording buffer holding `buffered` samples still takes in the next chunk.
pub fn accepts_samples(buffered: usize) -> (r: bool)
    ensures
        r == (buffered < SAMPLE_RATE * MAX_DURATION_SECS),
{
    buffered < max_recording_samples()
}

} // verus!
