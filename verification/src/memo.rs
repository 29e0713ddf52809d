//! The memo: the single unit of durable, externally visible progress state
//! for one agent run, and the creation policy recorded into it. The memo is
//! monotonic in information: once an identifier or policy field is set it is
//! never unset, only superseded.

use vstd::prelude::*;

verus! {

/// What the agent is allowed to do about a resource that may or may not
/// already exist.
#[derive(Clone, Copy, Debug, PartialEq, Eq, Structural)]
pub enum CreationPolicy {
    /// Always create; it is an error for the resource to already exist.
    Create,
    /// Create only when the resource is not already there.
    IfNotExists,
    /// Never create; it is an error for the resource to be absent.
    Never,
}

impl Default for CreationPolicy {
    fn default() -> (r: CreationPolicy)
        ensures
            r == CreationPolicy::Create,
    {
        CreationPolicy::Create
    }
}

/// The mathematical value of a memo: each text field as its sequence of
/// characters.
pub struct MemoView {
    pub current_status: Seq<char>,
    pub aws_secret_name: Option<Seq<char>>,
    pub cluster_name: Option<Seq<char>>,
    pub creation_policy: Option<CreationPolicy>,
    pub region: Option<Seq<char>>,
    pub assume_role: Option<Seq<char>>,
    pub provisioning_started: bool,
}

/// Durable progress record for one provisioning run. Mutated only by the
/// owning agent, one field-set per logical step, and pushed to the info
/// channel before the step's external effect where the ordering matters.
#[derive(Debug)]
pub struct ProductionMemo {
    /// Human-readable phase label.
    pub current_status: String,
    /// The name of the secret holding the cloud credentials.
    pub aws_secret_name: Option<String>,
    /// The name of the cluster the agent created or adopted.
    pub cluster_name: Option<String>,
    /// Whether the agent was instructed to create the cluster or not.
    pub creation_policy: Option<CreationPolicy>,
    /// The region the cluster is in.
    pub region: Option<String>,
    /// The role that is being assumed.
    pub assume_role: Option<String>,
    /// Durability marker: once true, every future agent incarnation must
    /// assume partial external resources may exist.
    pub provisioning_started: bool,
}

pub open spec fn text_view(text: Option<String>) -> Option<Seq<char>> {
    match text {
        Some(text) => Some(text@),
        None => None,
    }
}

impl View for ProductionMemo {
    type V = MemoView;

    open spec fn view(&self) -> MemoView {
        MemoView {
            current_status: self.current_status@,
            aws_secret_name: text_view(self.aws_secret_name),
            cluster_name: text_view(self.cluster_name),
            creation_policy: self.creation_policy,
            region: text_view(self.region),
            assume_role: text_view(self.assume_role),
            provisioning_started: self.provisioning_started,
        }
    }
}

fn clone_text(text: &Option<String>) -> (r: Option<String>)
    ensures
        text_view(r) == text_view(*text),
{
    match text {
        Some(text) => Some(text.clone()),
        None => None,
    }
}

impl Clone for ProductionMemo {
    fn clone(&self) -> (r: ProductionMemo)
        ensures
            r@ == self@,
    {
        ProductionMemo {
            current_status: self.current_status.clone(),
            aws_secret_name: clone_text(&self.aws_secret_name),
            cluster_name: clone_text(&self.cluster_name),
            creation_policy: self.creation_policy,
            region: clone_text(&self.region),
            assume_role: clone_text(&self.assume_role),
            provisioning_started: self.provisioning_started,
        }
    }
}

impl ProductionMemo {
    /// The value of the empty memo.
    pub open spec fn empty_view() -> MemoView {
        MemoView {
            current_status: Seq::empty(),
            aws_secret_name: None,
            cluster_name: None,
            creation_policy: None,
            region: None,
            assume_role: None,
            provisioning_started: false,
        }
    }

    /// The empty memo a provider starts from when the store holds none.
    pub fn empty() -> (r: ProductionMemo)
        ensures
            r@ == ProductionMemo::empty_view(),
    {
        ProductionMemo {
            current_status: String::new(),
            aws_secret_name: None,
            cluster_name: None,
            creation_policy: None,
            region: None,
            assume_role: None,
            provisioning_started: false,
        }
    }
}

/// Memo information order: every field set in `earlier` is still set in
/// `later`, and the durability marker never goes back to false.
pub open spec fn informs(earlier: MemoView, later: MemoView) -> bool {
    &&& earlier.aws_secret_name is Some ==> later.aws_secret_name is Some
    &&& earlier.cluster_name is Some ==> later.cluster_name is Some
    &&& earlier.creation_policy is Some ==> later.creation_policy is Some
    &&& earlier.region is Some ==> later.region is Some
    &&& earlier.assume_role is Some ==> later.assume_role is Some
    &&& earlier.provisioning_started ==> later.provisioning_started
}

} // verus!
