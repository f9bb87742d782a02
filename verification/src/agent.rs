//! Identities of accounts and of the agents that act for them.

use vstd::prelude::*;

verus! {

/// An account: a label that is unique within an audience.
#[derive(Clone, Debug, PartialEq, Eq)]
pub struct AccountId {
    pub label: String,
    pub audience: String,
}

/// What an [`AccountId`] holds.
pub struct AccountIdView {
    pub label: Seq<char>,
    pub audience: Seq<char>,
}

impl View for AccountId {
    type V = AccountIdView;

    open spec fn view(&self) -> AccountIdView {
        AccountIdView { label: self.label@, audience: self.audience@ }
    }
}

/// An agent: one connection of an account, told apart by its label.
#[derive(Clone, Debug, PartialEq, Eq)]
pub struct AgentId {
    pub label: String,
    pub account_id: AccountId,
}

/// What an [`AgentId`] holds.
pub struct AgentIdView {
    pub label: Seq<char>,
    pub account_id: AccountIdView,
}

impl View for AgentId {
    type V = AgentIdView;

    open spec fn view(&self) -> AgentIdView {
        AgentIdView { label: self.label@, account_id: self.account_id@ }
    }
}

impl AccountId {
    /// The account `label` of `audience`.
    pub fn new(label: &str, audience: &str) -> (res: AccountId)
        ensures
            res@ == (AccountIdView { label: label@, audience: audience@ }),
    {
        AccountId { label: label.to_owned(), audience: audience.to_owned() }
    }

    /// The label of the account.
    pub fn label(&self) -> (res: &str)
        ensures
            res@ == self@.label,
    {
        self.label.as_str()
    }

    /// The audience that the account belongs to.
    pub fn audience(&self) -> (res: &str)
        ensures
            res@ == self@.audience,
    {
        self.audience.as_str()
    }

    /// Whether both name the same account.
    pub fn same(&self, other: &AccountId) -> (b: bool)
        ensures
            b == (self@ == other@),
    {
        self.label == other.label && self.audience == other.audience
    }

    /// A copy of the identity.
    pub fn duplicate(&self) -> (res: AccountId)
        ensures
            res@ == self@,
    {
        AccountId { label: self.label.clone(), audience: self.audience.clone() }
    }
}

impl AgentId {
    /// The agent `label` of `account_id`.
    pub fn new(label: &str, account_id: AccountId) -> (res: AgentId)
        ensures
            res@ == (AgentIdView { label: label@, account_id: account_id@ }),
    {
        AgentId { label: label.to_owned(), account_id }
    }

    /// The label of the agent.
    pub fn label(&self) -> (res: &str)
        ensures
            res@ == self@.label,
    {
        self.label.as_str()
    }

    /// The account that the agent acts for.
    pub fn as_account_id(&self) -> (res: &AccountId)
        ensures
            res@ == self@.account_id,
    {
        &self.account_id
    }

    /// Whether both name the same agent.
    pub fn same(&self, other: &AgentId) -> (b: bool)
        ensures
            b == (self@ == other@),
    {
        self.label == other.label && self.account_id.same(&other.account_id)
    }

    /// A copy of the identity.
    pub fn duplicate(&self) -> (res: AgentId)
        ensures
            res@ == self@,
    {
        AgentId { label: self.label.clone(), account_id: self.account_id.duplicate() }
    }
}

} // verus!
