//! The contracts between configurations, container descriptors and running
//! servers.

use crate::common::{is_alphanumeric_char, rand_string};
use crate::registry::ConfigStore;
use crate::strmap::StringMap;
use vstd::prelude::*;
use vstd::string::StringExecFns;

verus! {

/// Where a container image is pulled from.
#[derive(Clone, Copy)]
pub enum ImageSource {
    /// The local image storage of the container engine.
    Local,
    /// The official public registry.
    DockerHub,
}

/// The container output stream a readiness message is awaited on.
#[derive(Clone, Copy)]
pub enum LogStream {
    Stdout,
    Stderr,
}

/// A readiness condition: the run waits until `message` appears on the given
/// stream of the container, and fails once `timeout` seconds have elapsed
/// without it.
pub struct WaitCondition {
    pub message: String,
    pub source: LogStream,
    pub timeout: u16,
}

/// The mathematical value of a [`WaitCondition`].
#[verifier::ext_equal]
pub ghost struct WaitSpec {
    pub message: Seq<char>,
    pub source: LogStream,
    pub timeout: u16,
}

impl View for WaitCondition {
    type V = WaitSpec;

    open spec fn view(&self) -> WaitSpec {
        WaitSpec { message: self.message@, source: self.source, timeout: self.timeout }
    }
}

/// The readiness condition that waits for `message` on the given stream.
pub open spec fn message_wait(message: Seq<char>, source: LogStream, timeout: u16) -> WaitSpec {
    WaitSpec { message, source, timeout }
}

/// Everything needed to start one container: the command line, the
/// environment, the unique handle naming the instance, the image, the port
/// mappings from container port to host port, an optional readiness
/// condition, and bind mounts from target path to host path.
pub struct ContainerConfig {
    pub args: Vec<String>,
    pub env: StringMap,
    pub handle: String,
    pub name: String,
    pub source: ImageSource,
    pub version: String,
    pub ports: Option<Vec<(u32, u32)>>,
    pub wait: Option<WaitCondition>,
    pub bind_mounts: StringMap,
}

/// The mathematical value of a [`ContainerConfig`].
#[verifier::ext_equal]
pub ghost struct ContainerSpec {
    pub args: Seq<Seq<char>>,
    pub env: Map<Seq<char>, Seq<char>>,
    pub handle: Seq<char>,
    pub name: Seq<char>,
    pub source: ImageSource,
    pub version: Seq<char>,
    pub ports: Option<Seq<(u32, u32)>>,
    pub wait: Option<WaitSpec>,
    pub bind_mounts: Map<Seq<char>, Seq<char>>,
}

impl View for ContainerConfig {
    type V = ContainerSpec;

    open spec fn view(&self) -> ContainerSpec {
        ContainerSpec {
            args: self.args.deep_view(),
            env: self.env@,
            handle: self.handle@,
            name: self.name@,
            source: self.source,
            version: self.version@,
            ports: match self.ports {
                Some(p) => Some(p@),
                None => None,
            },
            wait: match self.wait {
                Some(w) => Some(w@),
                None => None,
            },
            bind_mounts: self.bind_mounts@,
        }
    }
}

impl DeepView for ContainerConfig {
    type V = ContainerSpec;

    open spec fn deep_view(&self) -> ContainerSpec {
        self@
    }
}

/// The runtime facts about one ready container: the handle it was requested
/// under, and its address inside the container network, as reported by the
/// orchestration layer once the container is ready.
pub struct RunningContainer {
    pub handle: String,
    pub ip: String,
}

/// An error from building a configuration.
///
/// Builders fill every unset field with a default, so building cannot
/// currently fail; the variant is kept so that configuration construction
/// stays fallible for callers.
#[derive(Debug)]
pub enum BuildError {
    UninitializedField,
}

/// Holds when `h` is `name` followed by `n` alphanumeric characters.
pub open spec fn generated_handle(name: Seq<char>, h: Seq<char>, n: nat) -> bool {
    &&& h.len() == name.len() + n
    &&& h.subrange(0, name.len() as int) == name
    &&& forall|i: int| name.len() <= i < h.len() ==> is_alphanumeric_char(#[trigger] h[i])
}

/// Holds when `s` consists of `n` alphanumeric characters.
pub open spec fn alphanumeric_of_len(s: Seq<char>, n: nat) -> bool {
    &&& s.len() == n
    &&& forall|i: int| 0 <= i < s.len() ==> is_alphanumeric_char(#[trigger] s[i])
}

/// A helper function for generating random handles.
///
/// The returned handle is a combination of the given name and a random 10
/// character string.
pub fn new_handle(name: &str) -> (h: String)
    ensures
        generated_handle(name@, h@, 10),
{
    let mut h = name.to_owned();
    let suffix = rand_string(10);
    h.append(suffix.as_str());
    proof {
        assert(h@.subrange(0, name@.len() as int) =~= name@);
    }
    h
}

/// A configuration capable of configuring a server container.
///
/// Types that implement this trait have a one-to-one relationship with a
/// [`Server`] as specified by [`Server::Config`]. A configuration can render
/// itself into the [`ContainerConfig`] descriptor that starts its container,
/// names the handle embedded in that descriptor, and owns one slot of the
/// [`ConfigStore`], so that a test retains at most one configuration per
/// concrete type.
pub trait Config: Sized {
    /// The handle embedded in the descriptor this configuration produces.
    spec fn spec_handle(&self) -> Seq<char>;

    /// The descriptor this configuration produces, as a mathematical value.
    spec fn spec_composition(&self) -> ContainerSpec;

    /// The configuration of this type held by the store, if any.
    spec fn stored_in(s: ConfigStore) -> Option<Self>;

    /// The store after this configuration is put into its slot.
    spec fn spec_store(s: ConfigStore, c: Self) -> ConfigStore;

    /// Builds the container descriptor. Deterministic in the configuration's
    /// fields, and embeds the same handle that [`Config::handle`] returns.
    fn composition(&self) -> (c: ContainerConfig)
        ensures
            c@ == self.spec_composition(),
            c@.handle == self.spec_handle(),
    ;

    /// The handle naming the container this configuration describes.
    fn handle(&self) -> (h: &str)
        ensures
            h@ == self.spec_handle(),
    ;

    /// Moves this configuration into its slot of the store, replacing any
    /// configuration of the same type and leaving every other slot as it
    /// was.
    fn store(self, s: &mut ConfigStore)
        ensures
            *final(s) == Self::spec_store(*old(s), self),
    ;

    /// Borrows the stored configuration of this type, if one is present.
    fn fetch(s: &ConfigStore) -> (r: Option<&Self>)
        ensures
            match r {
                Some(c) => Self::stored_in(*s) == Some(*c),
                None => Self::stored_in(*s) is None,
            },
    ;

    /// Storing a configuration makes exactly that configuration retrievable.
    proof fn lemma_store_retrieves(s: ConfigStore, c: Self)
        ensures
            Self::stored_in(Self::spec_store(s, c)) == Some(c),
    ;
}

/// A running instance of a specific container generated by a [`Config`].
///
/// A server handle is constructed from its originating configuration together
/// with the runtime data of the ready container; the construction is a pure
/// function of those two values, so resolving the same server twice yields
/// handles with equal observable fields.
pub trait Server: Sized {
    type Config: Config;

    /// Holds when `s` is the server handle constructed from `config` and
    /// `container`. Each implementation pins every field of `s` — exactly,
    /// or up to the view for freshly built strings — so construction is
    /// deterministic in its observable fields.
    spec fn constructed_from(s: Self, config: Self::Config, container: RunningContainer) -> bool;

    /// Constructs the server handle; a pure function of its two arguments.
    fn new(config: &Self::Config, container: &RunningContainer) -> (s: Self)
        ensures
            Self::constructed_from(s, *config, *container),
    ;
}

/// A helper function for generating container descriptors.
///
/// A descriptor usually consists of a few common configuration properties.
/// This helper provides a common interface to those properties. The readiness
/// message, when given, is awaited on stdout; the descriptor carries no bind
/// mounts.
pub fn generate_composition(
    args: Vec<String>,
    env: StringMap,
    handle: &str,
    name: &str,
    source: ImageSource,
    timeout: u16,
    version: &str,
    ports: Option<Vec<(u32, u32)>>,
    wait_msg: Option<&str>,
) -> (c: ContainerConfig)
    ensures
        c@.args == args.deep_view(),
        c@.env == env@,
        c@.handle == handle@,
        c@.name == name@,
        c@.source == source,
        c@.version == version@,
        c@.ports == (match ports {
            Some(p) => Some(p@),
            None => None,
        }),
        c@.wait == (match wait_msg {
            Some(m) => Some(message_wait(m@, LogStream::Stdout, timeout)),
            None => None,
        }),
        c@.bind_mounts == Map::<Seq<char>, Seq<char>>::empty(),
{
    let wait = match wait_msg {
        Some(msg) => Some(
            WaitCondition { message: msg.to_owned(), source: LogStream::Stdout, timeout },
        ),
        None => None,
    };
    ContainerConfig {
        args,
        env,
        handle: handle.to_owned(),
        name: name.to_owned(),
        source,
        version: version.to_owned(),
        ports,
        wait,
        bind_mounts: StringMap::new(),
    }
}

} // verus!
