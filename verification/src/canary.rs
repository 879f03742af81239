//! Decoy files and the folders that hold them: how a batch of files is drawn,
//! and what registering a folder for monitoring decides at each step.

pub use crate::registration::register_canary_folder;
pub use crate::response::handle_event;
use crate::settings::{Settings, SettingsView};
use rand::rngs::ThreadRng;
use rand::Rng;
use vstd::prelude::*;

verus! {

/// The permission bits of a decoy file where the system has such bits: every
/// user may read and write it, so that access by any account is noticed.
pub const CANARY_FILE_MODE: u32 = 0o666;

/// The generator that `rand` keeps for each thread.
#[verifier::external_type_specification]
#[verifier::external_body]
pub struct ExThreadRng(ThreadRng);

/// `rand::thread_rng` hands out the calling thread's generator. Nothing is
/// claimed of it.
pub assume_specification[ rand::thread_rng ]() -> (rng: ThreadRng);

/// Calls `rand::Rng::gen_range` on the range from `low` to `high`, both
/// included. The call panics on an empty range, which the `requires` leaves
/// out; what it returns lies in the range.
#[verifier::external_body]
fn gen_range_inclusive(rng: &mut ThreadRng, low: u64, high: u64) -> (res: u64)
    requires
        low <= high,
    ensures
        low <= res <= high,
{
    rng.gen_range(low..=high)
}

/// Calls `rand::Rng::fill` on the bytes of `dest`. The call keeps the length;
/// nothing is claimed of the bytes.
#[verifier::external_body]
fn fill_random(rng: &mut ThreadRng, dest: &mut Vec<u8>)
    ensures
        final(dest)@.len() == old(dest)@.len(),
{
    rng.fill(&mut dest[..]);
}

/// A decoy file: a name and an extension from the configured pools, and
/// content that means nothing.
#[derive(Debug)]
pub struct CanaryFile {
    pub name: String,
    pub extension: String,
    pub content: Vec<u8>,
}

/// A `CanaryFile` with its texts as sequences of characters.
pub struct CanaryFileView {
    pub name: Seq<char>,
    pub extension: Seq<char>,
    pub content: Seq<u8>,
}

impl View for CanaryFile {
    type V = CanaryFileView;

    open spec fn view(&self) -> CanaryFileView {
        CanaryFileView { name: self.name@, extension: self.extension@, content: self.content@ }
    }
}

impl DeepView for CanaryFile {
    type V = CanaryFileView;

    open spec fn deep_view(&self) -> CanaryFileView {
        self@
    }
}

impl CanaryFileView {
    /// The name of the file in its folder: name, a dot, extension.
    pub open spec fn file_name(self) -> Seq<char> {
        self.name + seq!['.'] + self.extension
    }

    /// Whether the settings allow this file: its name and its extension are in
    /// the pools and its size is in the range.
    pub open spec fn allowed_by(self, settings: SettingsView) -> bool {
        &&& settings.canary_file_names.contains(self.name)
        &&& settings.canary_file_extensions.contains(self.extension)
        &&& settings.min_canary_file_size <= self.content.len() <= settings.max_canary_file_size
    }
}

/// Whether the settings allow this batch: the number of files is in the range
/// and each file is allowed.
pub open spec fn is_canary_batch(batch: Seq<CanaryFileView>, settings: SettingsView) -> bool {
    &&& settings.min_canary_files <= batch.len() <= settings.max_canary_files
    &&& forall|i: int| 0 <= i < batch.len() ==> (#[trigger] batch[i]).allowed_by(settings)
}

impl CanaryFile {
    /// The decoy file with the name and the extension that stand at the given
    /// places in the pools, and with the given content.
    pub fn from_draw(
        settings: &Settings,
        name_index: usize,
        extension_index: usize,
        content: Vec<u8>,
    ) -> (file: CanaryFile)
        requires
            name_index < settings.canary_file_names@.len(),
            extension_index < settings.canary_file_extensions@.len(),
        ensures
            file@.name == settings@.canary_file_names[name_index as int],
            file@.extension == settings@.canary_file_extensions[extension_index as int],
            file@.content == content@,
    {
        CanaryFile {
            name: settings.canary_file_names[name_index].clone(),
            extension: settings.canary_file_extensions[extension_index].clone(),
            content,
        }
    }

    /// The name of the file in its folder.
    pub fn file_name(&self) -> (res: String)
        ensures
            res@ == self@.file_name(),
    {
        proof {
            reveal_strlit(".");
        }
        let mut res = self.name.clone();
        res.append(".");
        res.append(self.extension.as_str());
        res
    }
}

/// Creates canary files for a folder.
///
/// The number of files is drawn from the configured range. For each file a name
/// and an extension are drawn from the pools, each draw on its own, and a size
/// from the configured range; the content is that many random bytes.
pub fn create_canary_files(settings: &Settings) -> (batch: Vec<CanaryFile>)
    requires
        settings@.seedable(),
    ensures
        is_canary_batch(batch.deep_view(), settings@),
{
    let mut rng = rand::thread_rng();
    let num_files = gen_range_inclusive(
        &mut rng,
        settings.min_canary_files as u64,
        settings.max_canary_files as u64,
    ) as u32;
    let mut batch: Vec<CanaryFile> = Vec::new();
    let mut made: u32 = 0;
    while made < num_files
        invariant
            settings@.seedable(),
            made <= num_files,
            batch@.len() == made,
            forall|i: int| 0 <= i < batch@.len() ==> (#[trigger] batch@[i])@.allowed_by(settings@),
        decreases num_files - made,
    {
        let names = settings.canary_file_names.len();
        let extensions = settings.canary_file_extensions.len();
        let name_index = gen_range_inclusive(&mut rng, 0, (names - 1) as u64) as usize;
        let extension_index = gen_range_inclusive(&mut rng, 0, (extensions - 1) as u64) as usize;
        let size = gen_range_inclusive(
            &mut rng,
            settings.min_canary_file_size,
            settings.max_canary_file_size,
        );
        let mut data = vec![0u8; size as usize];
        fill_random(&mut rng, &mut data);
        let file = CanaryFile::from_draw(settings, name_index, extension_index, data);
        batch.push(file);
        made += 1;
    }
    batch
}

} // verus!
