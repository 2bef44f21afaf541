//! The release index as far as an install reads it, and the lookup from a
//! chosen target to the artifact to download.

use vstd::prelude::*;
use vstd::string::*;
use crate::error::{Error, ErrorView};
use crate::table::{entries_map, find, Entry};
use crate::target::{target_key, InstallTarget};

verus! {

/// Where the release index is published.
pub const MANIFEST_URL: &'static str = "https://ziglang.org/download/index.json";

/// The channel whose builds are installed.
pub const CHANNEL: &'static str = "master";

/// One downloadable build.
#[derive(Debug, Clone, PartialEq, Eq)]
pub struct ArtifactDescriptor {
    pub tarball: String,
}

/// An [`ArtifactDescriptor`] with its URL as a sequence of characters.
pub ghost struct ArtifactDescriptorView {
    pub tarball: Seq<char>,
}

impl View for ArtifactDescriptor {
    type V = ArtifactDescriptorView;

    open spec fn view(&self) -> ArtifactDescriptorView {
        ArtifactDescriptorView { tarball: self.tarball@ }
    }
}

impl ArtifactDescriptor {
    pub fn new(tarball: &str) -> (descriptor: ArtifactDescriptor)
        ensures
            descriptor@.tarball == tarball@,
    {
        ArtifactDescriptor { tarball: String::from_str(tarball) }
    }

    /// A descriptor of the same build.
    pub fn duplicate(&self) -> (copy: ArtifactDescriptor)
        ensures
            copy@ == self@,
    {
        ArtifactDescriptor { tarball: self.tarball.clone() }
    }
}

/// The builds of one channel by platform key. Its view is the map from key to
/// descriptor.
#[derive(Debug, Clone, PartialEq, Eq)]
pub struct ChannelEntry {
    artifacts: Vec<Entry<ArtifactDescriptor>>,
}

impl View for ChannelEntry {
    type V = Map<Seq<char>, ArtifactDescriptorView>;

    closed spec fn view(&self) -> Map<Seq<char>, ArtifactDescriptorView> {
        entries_map(self.artifacts@)
    }
}

impl ChannelEntry {
    /// A channel without builds.
    pub fn new() -> (channel: ChannelEntry)
        ensures
            channel@ == Map::<Seq<char>, ArtifactDescriptorView>::empty(),
    {
        ChannelEntry { artifacts: Vec::new() }
    }

    /// Lists `descriptor` under `key`, in place of what the key had before.
    pub fn insert(&mut self, key: &str, descriptor: ArtifactDescriptor)
        ensures
            final(self)@ == old(self)@.insert(key@, descriptor@),
    {
        let ghost before = self.artifacts@;
        self.artifacts.push(Entry { key: String::from_str(key), value: descriptor });
        assert(self.artifacts@.drop_last() == before);
    }

    /// The build listed under `key`, if there is one.
    pub fn get(&self, key: &str) -> (found: Option<&ArtifactDescriptor>)
        ensures
            found is Some <==> self@.contains_key(key@),
            found matches Some(descriptor) ==> descriptor@ == self@[key@],
    {
        find(&self.artifacts, key)
    }
}

/// The release index: channels by name. Its view maps a channel's name to the
/// view of its builds.
#[derive(Debug, Clone, PartialEq, Eq)]
pub struct ReleaseManifest {
    channels: Vec<Entry<ChannelEntry>>,
}

impl View for ReleaseManifest {
    type V = Map<Seq<char>, Map<Seq<char>, ArtifactDescriptorView>>;

    closed spec fn view(&self) -> Map<Seq<char>, Map<Seq<char>, ArtifactDescriptorView>> {
        entries_map(self.channels@)
    }
}

impl ReleaseManifest {
    /// An index without channels.
    pub fn new() -> (manifest: ReleaseManifest)
        ensures
            manifest@ == Map::<Seq<char>, Map<Seq<char>, ArtifactDescriptorView>>::empty(),
    {
        ReleaseManifest { channels: Vec::new() }
    }

    /// Lists `channel` under `name`, in place of what the name had before.
    pub fn insert(&mut self, name: &str, channel: ChannelEntry)
        ensures
            final(self)@ == old(self)@.insert(name@, channel@),
    {
        let ghost before = self.channels@;
        self.channels.push(Entry { key: String::from_str(name), value: channel });
        assert(self.channels@.drop_last() == before);
    }

    /// The channel listed under `name`, if there is one.
    pub fn channel(&self, name: &str) -> (found: Option<&ChannelEntry>)
        ensures
            found is Some <==> self@.contains_key(name@),
            found matches Some(channel) ==> channel@ == self@[name@],
    {
        find(&self.channels, name)
    }
}

/// Whether the index lists a build for `target` on the installed channel.
pub open spec fn lists_target(
    manifest: Map<Seq<char>, Map<Seq<char>, ArtifactDescriptorView>>,
    target: InstallTarget,
) -> bool {
    manifest.contains_key(CHANNEL@) && manifest[CHANNEL@].contains_key(target_key(target))
}

/// What resolving `target` against the index gives: the descriptor listed
/// under the target's key, or the key as the failure.
pub open spec fn resolved(
    manifest: Map<Seq<char>, Map<Seq<char>, ArtifactDescriptorView>>,
    target: InstallTarget,
) -> Result<ArtifactDescriptorView, ErrorView> {
    if lists_target(manifest, target) {
        Ok(manifest[CHANNEL@][target_key(target)])
    } else {
        Err(ErrorView::UnsupportedTarget(target_key(target)))
    }
}

/// The view of a resolver's outcome.
pub open spec fn outcome_view(outcome: Result<ArtifactDescriptor, Error>) -> Result<
    ArtifactDescriptorView,
    ErrorView,
> {
    match outcome {
        Ok(descriptor) => Ok(descriptor@),
        Err(error) => Err(error@),
    }
}

/// Picks the artifact for `target`: the descriptor that the installed channel
/// lists under the target's key. Where the channel or the key is absent the
/// target is unsupported, and the error carries the key that was tried.
pub fn resolve(manifest: &ReleaseManifest, target: InstallTarget) -> (outcome: Result<
    ArtifactDescriptor,
    Error,
>)
    ensures
        outcome_view(outcome) == resolved(manifest@, target),
        outcome is Ok <==> lists_target(manifest@, target),
{
    let key = target.key();
    let listed = match manifest.channel(CHANNEL) {
        Some(channel) => channel.get(key.as_str()),
        None => None,
    };
    match listed {
        Some(descriptor) => Ok(descriptor.duplicate()),
        None => Err(Error::UnsupportedTarget(key)),
    }
}

/// An index whose installed channel lists all three platform keys resolves
/// every target to the descriptor under that target's key.
pub proof fn lemma_complete_index_resolves_every_target(
    manifest: Map<Seq<char>, Map<Seq<char>, ArtifactDescriptorView>>,
    target: InstallTarget,
)
    requires
        manifest.contains_key(CHANNEL@),
        manifest[CHANNEL@].contains_key("x86_64-linux"@),
        manifest[CHANNEL@].contains_key("x86_64-macos"@),
        manifest[CHANNEL@].contains_key("aarch64-macos"@),
    ensures
        resolved(manifest, target) == Ok::<ArtifactDescriptorView, ErrorView>(
            manifest[CHANNEL@][target_key(target)],
        ),
{
}

/// An index that lacks the key of the requested target fails with the
/// unsupported-target error for that key, and with no other.
pub proof fn lemma_missing_key_is_unsupported(
    manifest: Map<Seq<char>, Map<Seq<char>, ArtifactDescriptorView>>,
    target: InstallTarget,
)
    requires
        !manifest.contains_key(CHANNEL@) || !manifest[CHANNEL@].contains_key(target_key(target)),
    ensures
        resolved(manifest, target) == Err::<ArtifactDescriptorView, ErrorView>(
            ErrorView::UnsupportedTarget(target_key(target)),
        ),
{
}

} // verus!
