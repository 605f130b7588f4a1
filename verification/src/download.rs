//! Which files a model consists of, and which of them have to be fetched.
//!
//! Looking into the model directory and fetching from the repository
//! belong to the caller. Decided here is what to look for, what to fetch
//! given what was found, and what the files are for.

use vstd::prelude::*;
use crate::error::PipelineError;

verus! {

/// The number of files that make up the model.
pub const REQUIRED_FILES: usize = 4;

/// The repository that holds the model.
pub fn model_repository() -> (name: &'static str)
    ensures
        name@ == "mistralai/Voxtral-Mini-3B-2507"@,
{
    "mistralai/Voxtral-Mini-3B-2507"
}

/// The revision of the repository that is fetched.
pub fn model_revision() -> (name: &'static str)
    ensures
        name@ == "main"@,
{
    "main"
}

/// The local directory that holds the files of the model.
pub fn model_directory() -> (name: &'static str)
    ensures
        name@ == "Voxtral-Mini-3B-2507"@,
{
    "Voxtral-Mini-3B-2507"
}

/// The name of the `index`-th file of the model.
pub open spec fn spec_required_file(index: int) -> Seq<char> {
    if index == 0 {
        "config.json"@
    } else if index == 1 {
        "tekken.json"@
    } else if index == 2 {
        "model-00001-of-00002.safetensors"@
    } else {
        "model-00002-of-00002.safetensors"@
    }
}

/// The name of the `index`-th file of the model: the configuration, the
/// tokenizer, and the two files of weights. `None` for an index that is not
/// below [`REQUIRED_FILES`].
pub fn required_file(index: usize) -> (name: Option<&'static str>)
    ensures
        name is Some <==> index < REQUIRED_FILES,
        name matches Some(n) ==> n@ == spec_required_file(index as int),
{
    if index == 0 {
        Some("config.json")
    } else if index == 1 {
        Some("tekken.json")
    } else if index == 2 {
        Some("model-00001-of-00002.safetensors")
    } else if index == 3 {
        Some("model-00002-of-00002.safetensors")
    } else {
        None
    }
}

/// Whether the `index`-th file of the model was found: `present` says so
/// for each file that it has an entry for.
pub open spec fn spec_is_present(present: Seq<bool>, index: int) -> bool {
    0 <= index < present.len() && present[index]
}

/// The files among the first `count` that were not found, in order.
pub open spec fn spec_missing(present: Seq<bool>, count: int) -> Seq<usize>
    decreases count,
{
    if count <= 0 {
        Seq::empty()
    } else if spec_is_present(present, count - 1) {
        spec_missing(present, count - 1)
    } else {
        spec_missing(present, count - 1).push((count - 1) as usize)
    }
}

/// The files of the model that have to be fetched: those that were not
/// found in the model directory, in order.
pub fn needed_files(present: &Vec<bool>) -> (needed: Vec<usize>)
    ensures
        needed@ == spec_missing(present@, REQUIRED_FILES as int),
        forall|i: int| 0 <= i < needed@.len() ==> needed@[i] < REQUIRED_FILES,
        forall|k: int|
            0 <= k < REQUIRED_FILES ==> (needed@.contains(k as usize) <==> !spec_is_present(
                present@,
                k,
            )),
{
    let mut needed: Vec<usize> = Vec::new();
    let mut index: usize = 0;
    while index < REQUIRED_FILES
        invariant
            index <= REQUIRED_FILES,
            needed@ == spec_missing(present@, index as int),
            forall|i: int| 0 <= i < needed@.len() ==> needed@[i] < index,
            forall|k: int|
                0 <= k < index ==> (needed@.contains(k as usize) <==> !spec_is_present(
                    present@,
                    k,
                )),
        decreases REQUIRED_FILES - index,
    {
        let found: bool = index < present.len() && present[index];
        if !found {
            let ghost before = needed@;
            needed.push(index);
            proof {
                assert(needed@.last() == index);
                assert forall|k: int| 0 <= k < index + 1 implies (needed@.contains(k as usize)
                    <==> !spec_is_present(present@, k)) by {
                    if k < index {
                        if before.contains(k as usize) {
                            let w = choose|w: int| 0 <= w < before.len() && before[w] == k as usize;
                            assert(needed@[w] == k as usize);
                        }
                        if needed@.contains(k as usize) {
                            let w = choose|w: int| 0 <= w < needed@.len() && needed@[w] == k as usize;
                            assert(w < before.len());
                            assert(before[w] == k as usize);
                        }
                    } else {
                        assert(needed@[needed@.len() - 1] == k as usize);
                    }
                }
            }
        }
        index = index + 1;
    }
    needed
}

/// What has to be done to have the files of the model.
#[derive(Clone, Debug, PartialEq, Eq)]
pub enum FilesStep {
    /// All files were found; they are used as they are.
    UseExisting,
    /// The directory is there; the files with these indices are fetched.
    Download { needed: Vec<usize> },
    /// The directory is made, and all files are fetched.
    CreateAndDownload { needed: Vec<usize> },
}

/// What has to be done to have the files of the model, given whether the
/// model directory exists and which files were found in it.
///
/// In a directory that exists the files that were not found are fetched,
/// and nothing where all were found. A directory that does not exist is
/// made, and every file is fetched, whatever `present` says.
pub fn plan_model_files(directory_exists: bool, present: &Vec<bool>) -> (step: FilesStep)
    ensures
        match step {
            FilesStep::UseExisting => directory_exists && spec_missing(
                present@,
                REQUIRED_FILES as int,
            ).len() == 0,
            FilesStep::Download { needed } => directory_exists && needed@.len() > 0 && needed@
                == spec_missing(present@, REQUIRED_FILES as int),
            FilesStep::CreateAndDownload { needed } => !directory_exists && needed@ == seq![
                0usize,
                1usize,
                2usize,
                3usize,
            ],
        },
{
    if directory_exists {
        let needed = needed_files(present);
        if needed.len() == 0 {
            FilesStep::UseExisting
        } else {
            FilesStep::Download { needed }
        }
    } else {
        let mut needed: Vec<usize> = Vec::new();
        let mut index: usize = 0;
        while index < REQUIRED_FILES
            invariant
                index <= REQUIRED_FILES,
                needed@ == Seq::new(index as nat, |k: int| k as usize),
            decreases REQUIRED_FILES - index,
        {
            needed.push(index);
            index = index + 1;
            assert(needed@ =~= Seq::new(index as nat, |k: int| k as usize));
        }
        assert(needed@ =~= seq![0usize, 1usize, 2usize, 3usize]);
        FilesStep::CreateAndDownload { needed }
    }
}

/// Whether a round of fetching gave the model: it did where at least one
/// file came, and a round that brought nothing is a configuration error.
pub fn after_download(fetched: usize) -> (r: Result<(), PipelineError>)
    ensures
        r is Ok <==> fetched > 0,
        r matches Err(e) ==> e == PipelineError::Config,
{
    if fetched > 0 {
        Ok(())
    } else {
        Err(PipelineError::Config)
    }
}

/// What the files in a list of model files are for, by their positions.
#[derive(Clone, Copy, Debug, PartialEq, Eq, Structural)]
pub struct FileRoles {
    /// The position of the configuration: the first.
    pub config: usize,
    /// The position of the first file of weights.
    pub weights_start: usize,
    /// One past the position of the last file of weights.
    pub weights_end: usize,
    /// The position of the tokenizer: the last.
    pub tokenizer: usize,
}

/// What the files in a list of `count` model files are for: the first is
/// the configuration, the last the tokenizer, and those between are the
/// weights. `None` for a list of fewer than two files.
pub fn file_roles(count: usize) -> (r: Option<FileRoles>)
    ensures
        r == (if count < 2 {
            None
        } else {
            Some(
                FileRoles {
                    config: 0,
                    weights_start: 1,
                    weights_end: (count - 1) as usize,
                    tokenizer: (count - 1) as usize,
                },
            )
        }),
{
    if count < 2 {
        None
    } else {
        Some(
            FileRoles { config: 0, weights_start: 1, weights_end: count - 1, tokenizer: count - 1 },
        )
    }
}

} // verus!
