//! The accepting side of the handshake: it holds a `Hello` against what this
//! node speaks and belongs to, and answers with a `Welcome` or refuses.

use vstd::prelude::*;
use crate::envelope::{Hello, Welcome};
use crate::identifiers::GenerationalNodeId;
use crate::version::{supported_versions, ProtocolVersion, VersionRange};

verus! {

/// Why a `Hello` was refused.
#[derive(Clone, Copy, Debug, PartialEq, Eq, Structural)]
pub enum HandshakeError {
    /// The peer offers no version that this node speaks; the fields repeat
    /// what it offered.
    IncompatibleVersion { offered_min: i32, offered_max: i32 },
    /// The peer belongs to a cluster of another name.
    WrongCluster,
}

/// The versions that a `Hello` offers.
pub open spec fn offered(hello: Hello) -> VersionRange {
    VersionRange { min: hello.min_protocol_version, max: hello.max_protocol_version }
}

/// What the acceptor answers to `hello`: the version is judged first, then
/// the cluster name, each with an error of its own.
pub open spec fn acceptance(
    hello: Hello,
    my_node_id: GenerationalNodeId,
    cluster_name: Seq<char>,
) -> Result<Welcome, HandshakeError> {
    if !supported_versions().overlaps(offered(hello)) {
        Err(
            HandshakeError::IncompatibleVersion {
                offered_min: hello.min_protocol_version,
                offered_max: hello.max_protocol_version,
            },
        )
    } else if hello.cluster_name@ != cluster_name {
        Err(HandshakeError::WrongCluster)
    } else {
        Ok(
            Welcome {
                my_node_id,
                protocol_version: supported_versions().common_high(offered(hello)) as i32,
            },
        )
    }
}

/// The version for a connection with the sender of `hello`: the highest one
/// that both sides speak. Refuses where they share none.
pub fn negotiate_protocol_version(hello: &Hello) -> (negotiated: Result<
    ProtocolVersion,
    HandshakeError,
>)
    ensures
        supported_versions().overlaps(offered(*hello)) ==> negotiated == Ok::<
            ProtocolVersion,
            HandshakeError,
        >(ProtocolVersion::of_number(supported_versions().common_high(offered(*hello)))),
        !supported_versions().overlaps(offered(*hello)) ==> negotiated == Err::<
            ProtocolVersion,
            HandshakeError,
        >(
            HandshakeError::IncompatibleVersion {
                offered_min: hello.min_protocol_version,
                offered_max: hello.max_protocol_version,
            },
        ),
        negotiated matches Ok(version) ==> version.is_usable(),
{
    let remote = VersionRange::new(hello.min_protocol_version, hello.max_protocol_version);
    match VersionRange::supported().negotiate(remote) {
        Some(number) => Ok(ProtocolVersion::from_i32(number)),
        None => Err(
            HandshakeError::IncompatibleVersion {
                offered_min: hello.min_protocol_version,
                offered_max: hello.max_protocol_version,
            },
        ),
    }
}

/// Whether the sender of `hello` belongs to the cluster named `cluster_name`.
/// This does not look at the versions.
pub fn check_cluster_name(hello: &Hello, cluster_name: &String) -> (checked: Result<
    (),
    HandshakeError,
>)
    ensures
        hello.cluster_name@ == cluster_name@ ==> checked == Ok::<(), HandshakeError>(()),
        hello.cluster_name@ != cluster_name@ ==> checked == Err::<(), HandshakeError>(
            HandshakeError::WrongCluster,
        ),
{
    if hello.cluster_name == *cluster_name {
        Ok(())
    } else {
        Err(HandshakeError::WrongCluster)
    }
}

/// Answers a `Hello`. The `Welcome` names this node and the negotiated
/// version; a refusal says whether the versions or the cluster name were at
/// fault, the versions first where both are.
pub fn accept_hello(hello: &Hello, my_node_id: GenerationalNodeId, cluster_name: &String) -> (answer:
    Result<Welcome, HandshakeError>)
    ensures
        answer == acceptance(*hello, my_node_id, cluster_name@),
{
    match negotiate_protocol_version(hello) {
        Err(refusal) => Err(refusal),
        Ok(version) => match check_cluster_name(hello, cluster_name) {
            Err(refusal) => Err(refusal),
            Ok(()) => Ok(Welcome::new(my_node_id, version)),
        },
    }
}

/// A `Hello` is welcomed exactly when its range holds a version that this
/// node speaks and its cluster name is this node's; the version in the
/// `Welcome` is then in both ranges, and it is never the unknown one.
pub proof fn lemma_welcome_iff_compatible(
    hello: Hello,
    my_node_id: GenerationalNodeId,
    cluster_name: Seq<char>,
)
    ensures
        acceptance(hello, my_node_id, cluster_name) is Ok <==> (supported_versions().overlaps(
            offered(hello),
        ) && hello.cluster_name@ == cluster_name),
        acceptance(hello, my_node_id, cluster_name) matches Ok(welcome) ==> {
            &&& welcome.my_node_id == my_node_id
            &&& supported_versions().contains(welcome.protocol_version as int)
            &&& offered(hello).contains(welcome.protocol_version as int)
            &&& ProtocolVersion::of_number(welcome.protocol_version as int).is_usable()
        },
{
}

/// Whether the versions fit does not depend on the cluster name, and whether
/// the cluster name fits does not depend on the versions: the refusal is
/// `WrongCluster` only where the versions fit, and `IncompatibleVersion`
/// whatever the cluster name is.
pub proof fn lemma_refusals_are_distinct(
    hello: Hello,
    my_node_id: GenerationalNodeId,
    cluster_name: Seq<char>,
)
    ensures
        !supported_versions().overlaps(offered(hello)) <==> acceptance(
            hello,
            my_node_id,
            cluster_name,
        ) matches Err(HandshakeError::IncompatibleVersion { .. }),
        (supported_versions().overlaps(offered(hello)) && hello.cluster_name@ != cluster_name)
            <==> acceptance(hello, my_node_id, cluster_name) == Err::<Welcome, HandshakeError>(
            HandshakeError::WrongCluster,
        ),
{
}

} // verus!
