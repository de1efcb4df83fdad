//! Which statement starts at the parser's position.
//!
//! Each statement kind is described by the tokens it starts with, some of
//! which may be left out. From these descriptions a table of levels is
//! built: level `i` maps a token kind to the statements whose `i`-th start
//! token (counting the left-out ones as absent) may be of that kind. Looking
//! ahead token by token narrows the candidates down until one statement is
//! complete, or none is left.
use vstd::prelude::*;

use crate::lexer::TokenView;
use crate::parser::{kind_at, nth_non_whitespace, Parser};
use crate::syntax_kind::SyntaxKind;

verus! {

/// A token at the start of a statement: one that is always there, or one
/// that may be left out.
#[derive(Clone, Copy, Debug, PartialEq, Eq, Structural)]
pub enum SyntaxToken {
    Required(SyntaxKind),
    Optional(SyntaxKind),
}

impl SyntaxToken {
    /// The kind of the token.
    pub open spec fn token_kind(self) -> SyntaxKind {
        match self {
            SyntaxToken::Required(k) => k,
            SyntaxToken::Optional(k) => k,
        }
    }
}

/// A candidate statement: `EoS` when the token just seen is the last of its
/// start tokens, `Any` when more are to come.
#[derive(Clone, Copy, Debug, Hash)]
pub enum TokenStatement {
    EoS(SyntaxKind),
    Any(SyntaxKind),
}

impl TokenStatement {
    /// The statement kind of the candidate.
    pub open spec fn statement_kind(self) -> SyntaxKind {
        match self {
            TokenStatement::EoS(k) => k,
            TokenStatement::Any(k) => k,
        }
    }

    /// Whether the token just seen is the last start token of the statement.
    pub fn is_eos(&self) -> (r: bool)
        ensures
            r == (*self is EoS),
    {
        match self {
            TokenStatement::EoS(_) => true,
            _ => false,
        }
    }

    /// The statement kind of the candidate.
    pub fn kind(&self) -> (r: SyntaxKind)
        ensures
            r == self.statement_kind(),
    {
        match self {
            TokenStatement::EoS(k) => *k,
            TokenStatement::Any(k) => *k,
        }
    }
}

/// Two candidates are equal when they are for the same statement kind.
impl PartialEq for TokenStatement {
    fn eq(&self, other: &Self) -> (r: bool) {
        self.kind() == other.kind()
    }
}

impl vstd::std_specs::cmp::PartialEqSpecImpl for TokenStatement {
    open spec fn obeys_eq_spec() -> bool {
        true
    }

    open spec fn eq_spec(&self, other: &Self) -> bool {
        self.statement_kind() == other.statement_kind()
    }
}

/// A statement kind with its start tokens.
pub type StatementDefinition = (SyntaxKind, Vec<SyntaxToken>);

/// The view of a list of statement definitions.
pub open spec fn definitions_view(defs: Seq<StatementDefinition>) -> Seq<(SyntaxKind, Seq<SyntaxToken>)> {
    defs.map_values(|d: StatementDefinition| (d.0, d.1@))
}

/// The statements that are recognised, each with its start tokens.
pub open spec fn statement_definitions() -> Seq<(SyntaxKind, Seq<SyntaxToken>)> {
    seq![
        (SyntaxKind::InsertStmt, seq![SyntaxToken::Required(SyntaxKind::Insert), SyntaxToken::Required(SyntaxKind::Into)]),
        (SyntaxKind::DeleteStmt, seq![SyntaxToken::Required(SyntaxKind::DeleteP), SyntaxToken::Required(SyntaxKind::From)]),
        (SyntaxKind::UpdateStmt, seq![SyntaxToken::Required(SyntaxKind::Update)]),
        (SyntaxKind::MergeStmt, seq![SyntaxToken::Required(SyntaxKind::Merge), SyntaxToken::Required(SyntaxKind::Into)]),
        (SyntaxKind::SelectStmt, seq![SyntaxToken::Required(SyntaxKind::Select)]),
        (SyntaxKind::AlterTableStmt, seq![SyntaxToken::Required(SyntaxKind::Alter), SyntaxToken::Required(SyntaxKind::Table), SyntaxToken::Optional(SyntaxKind::IfP), SyntaxToken::Optional(SyntaxKind::Exists), SyntaxToken::Optional(SyntaxKind::Only), SyntaxToken::Required(SyntaxKind::Ident)]),
        (SyntaxKind::RenameStmt, seq![SyntaxToken::Required(SyntaxKind::Alter), SyntaxToken::Required(SyntaxKind::Table), SyntaxToken::Optional(SyntaxKind::IfP), SyntaxToken::Optional(SyntaxKind::Exists), SyntaxToken::Optional(SyntaxKind::Only), SyntaxToken::Required(SyntaxKind::Ident), SyntaxToken::Required(SyntaxKind::Rename)]),
        (SyntaxKind::AlterDomainStmt, seq![SyntaxToken::Required(SyntaxKind::Alter), SyntaxToken::Required(SyntaxKind::DomainP)]),
        (SyntaxKind::AlterDefaultPrivilegesStmt, seq![SyntaxToken::Required(SyntaxKind::Alter), SyntaxToken::Required(SyntaxKind::Default), SyntaxToken::Required(SyntaxKind::Privileges)]),
        (SyntaxKind::ClusterStmt, seq![SyntaxToken::Required(SyntaxKind::Cluster)]),
        (SyntaxKind::CopyStmt, seq![SyntaxToken::Required(SyntaxKind::Copy)]),
        (SyntaxKind::CreateStmt, seq![SyntaxToken::Required(SyntaxKind::Create), SyntaxToken::Optional(SyntaxKind::Global), SyntaxToken::Optional(SyntaxKind::Local), SyntaxToken::Optional(SyntaxKind::Temporary), SyntaxToken::Optional(SyntaxKind::Temp), SyntaxToken::Optional(SyntaxKind::Unlogged), SyntaxToken::Optional(SyntaxKind::IfP), SyntaxToken::Optional(SyntaxKind::Not), SyntaxToken::Optional(SyntaxKind::Exists), SyntaxToken::Required(SyntaxKind::Table), SyntaxToken::Required(SyntaxKind::Ident)]),
        (SyntaxKind::DefineStmt, seq![SyntaxToken::Required(SyntaxKind::Create), SyntaxToken::Optional(SyntaxKind::Or), SyntaxToken::Optional(SyntaxKind::Replace), SyntaxToken::Required(SyntaxKind::Aggregate)]),
        (SyntaxKind::DefineStmt, seq![SyntaxToken::Required(SyntaxKind::Create), SyntaxToken::Optional(SyntaxKind::Or), SyntaxToken::Optional(SyntaxKind::Replace), SyntaxToken::Required(SyntaxKind::Operator)]),
        (SyntaxKind::DefineStmt, seq![SyntaxToken::Required(SyntaxKind::Create), SyntaxToken::Optional(SyntaxKind::Or), SyntaxToken::Optional(SyntaxKind::Replace), SyntaxToken::Required(SyntaxKind::TypeP)]),
        (SyntaxKind::DropStmt, seq![SyntaxToken::Required(SyntaxKind::Drop)]),
        (SyntaxKind::TruncateStmt, seq![SyntaxToken::Required(SyntaxKind::Truncate)]),
        (SyntaxKind::CommentStmt, seq![SyntaxToken::Required(SyntaxKind::Comment), SyntaxToken::Required(SyntaxKind::On)]),
        (SyntaxKind::FetchStmt, seq![SyntaxToken::Required(SyntaxKind::Fetch)]),
        (SyntaxKind::IndexStmt, seq![SyntaxToken::Required(SyntaxKind::Create), SyntaxToken::Optional(SyntaxKind::Unique), SyntaxToken::Required(SyntaxKind::Index)]),
        (SyntaxKind::CreateFunctionStmt, seq![SyntaxToken::Required(SyntaxKind::Create), SyntaxToken::Optional(SyntaxKind::Or), SyntaxToken::Optional(SyntaxKind::Replace), SyntaxToken::Required(SyntaxKind::Function)]),
        (SyntaxKind::AlterFunctionStmt, seq![SyntaxToken::Required(SyntaxKind::Alter), SyntaxToken::Required(SyntaxKind::Function)]),
        (SyntaxKind::DoStmt, seq![SyntaxToken::Required(SyntaxKind::Do)]),
        (SyntaxKind::RuleStmt, seq![SyntaxToken::Required(SyntaxKind::Create), SyntaxToken::Optional(SyntaxKind::Or), SyntaxToken::Optional(SyntaxKind::Replace), SyntaxToken::Required(SyntaxKind::Rule)]),
        (SyntaxKind::NotifyStmt, seq![SyntaxToken::Required(SyntaxKind::Notify)]),
        (SyntaxKind::ListenStmt, seq![SyntaxToken::Required(SyntaxKind::Listen)]),
        (SyntaxKind::UnlistenStmt, seq![SyntaxToken::Required(SyntaxKind::Unlisten)]),
        (SyntaxKind::TransactionStmt, seq![SyntaxToken::Required(SyntaxKind::BeginP)]),
        (SyntaxKind::TransactionStmt, seq![SyntaxToken::Required(SyntaxKind::Commit)]),
        (SyntaxKind::ViewStmt, seq![SyntaxToken::Required(SyntaxKind::Create), SyntaxToken::Optional(SyntaxKind::Or), SyntaxToken::Optional(SyntaxKind::Replace), SyntaxToken::Optional(SyntaxKind::Temporary), SyntaxToken::Optional(SyntaxKind::Temp), SyntaxToken::Optional(SyntaxKind::Recursive), SyntaxToken::Required(SyntaxKind::View)]),
        (SyntaxKind::LoadStmt, seq![SyntaxToken::Required(SyntaxKind::Load)]),
        (SyntaxKind::CreateDomainStmt, seq![SyntaxToken::Required(SyntaxKind::Create), SyntaxToken::Required(SyntaxKind::DomainP)]),
        (SyntaxKind::CreatedbStmt, seq![SyntaxToken::Required(SyntaxKind::Create), SyntaxToken::Required(SyntaxKind::Database)]),
        (SyntaxKind::DropdbStmt, seq![SyntaxToken::Required(SyntaxKind::Drop), SyntaxToken::Required(SyntaxKind::Database)]),
        (SyntaxKind::VacuumStmt, seq![SyntaxToken::Required(SyntaxKind::Vacuum)]),
        (SyntaxKind::ExplainStmt, seq![SyntaxToken::Required(SyntaxKind::Explain)]),
        (SyntaxKind::CreateTableAsStmt, seq![SyntaxToken::Required(SyntaxKind::Create), SyntaxToken::Optional(SyntaxKind::Global), SyntaxToken::Optional(SyntaxKind::Local), SyntaxToken::Optional(SyntaxKind::Temporary), SyntaxToken::Optional(SyntaxKind::Temp), SyntaxToken::Required(SyntaxKind::Table), SyntaxToken::Required(SyntaxKind::Ident), SyntaxToken::Required(SyntaxKind::As)]),
        (SyntaxKind::CreateSeqStmt, seq![SyntaxToken::Required(SyntaxKind::Create), SyntaxToken::Optional(SyntaxKind::Temporary), SyntaxToken::Optional(SyntaxKind::Temp), SyntaxToken::Optional(SyntaxKind::Unlogged), SyntaxToken::Required(SyntaxKind::Sequence)]),
        (SyntaxKind::AlterSeqStmt, seq![SyntaxToken::Required(SyntaxKind::Alter), SyntaxToken::Required(SyntaxKind::Sequence)]),
        (SyntaxKind::VariableSetStmt, seq![SyntaxToken::Required(SyntaxKind::SetKw)]),
        (SyntaxKind::VariableShowStmt, seq![SyntaxToken::Required(SyntaxKind::Show)]),
        (SyntaxKind::DiscardStmt, seq![SyntaxToken::Required(SyntaxKind::Discard)]),
        (SyntaxKind::CreateTrigStmt, seq![SyntaxToken::Required(SyntaxKind::Create), SyntaxToken::Optional(SyntaxKind::Or), SyntaxToken::Optional(SyntaxKind::Replace), SyntaxToken::Optional(SyntaxKind::Constraint), SyntaxToken::Required(SyntaxKind::Trigger)]),
        (SyntaxKind::CreateRoleStmt, seq![SyntaxToken::Required(SyntaxKind::Create), SyntaxToken::Required(SyntaxKind::Role)]),
        (SyntaxKind::AlterRoleStmt, seq![SyntaxToken::Required(SyntaxKind::Alter), SyntaxToken::Required(SyntaxKind::Role)]),
        (SyntaxKind::DropRoleStmt, seq![SyntaxToken::Required(SyntaxKind::Drop), SyntaxToken::Required(SyntaxKind::Role)]),
        (SyntaxKind::LockStmt, seq![SyntaxToken::Required(SyntaxKind::LockP)]),
        (SyntaxKind::ConstraintsSetStmt, seq![SyntaxToken::Required(SyntaxKind::SetKw), SyntaxToken::Required(SyntaxKind::Constraints)]),
        (SyntaxKind::ReindexStmt, seq![SyntaxToken::Required(SyntaxKind::Reindex)]),
        (SyntaxKind::CheckPointStmt, seq![SyntaxToken::Required(SyntaxKind::Checkpoint)]),
        (SyntaxKind::CreateSchemaStmt, seq![SyntaxToken::Required(SyntaxKind::Create), SyntaxToken::Required(SyntaxKind::Schema)]),
        (SyntaxKind::AlterDatabaseStmt, seq![SyntaxToken::Required(SyntaxKind::Alter), SyntaxToken::Required(SyntaxKind::Database), SyntaxToken::Required(SyntaxKind::Ident)]),
        (SyntaxKind::AlterDatabaseRefreshCollStmt, seq![SyntaxToken::Required(SyntaxKind::Alter), SyntaxToken::Required(SyntaxKind::Database), SyntaxToken::Required(SyntaxKind::Ident), SyntaxToken::Required(SyntaxKind::Refresh), SyntaxToken::Required(SyntaxKind::Collation), SyntaxToken::Required(SyntaxKind::VersionP)]),
        (SyntaxKind::AlterDatabaseSetStmt, seq![SyntaxToken::Required(SyntaxKind::Alter), SyntaxToken::Required(SyntaxKind::Database), SyntaxToken::Required(SyntaxKind::Ident), SyntaxToken::Required(SyntaxKind::SetKw)]),
        (SyntaxKind::AlterDatabaseSetStmt, seq![SyntaxToken::Required(SyntaxKind::Alter), SyntaxToken::Required(SyntaxKind::Database), SyntaxToken::Required(SyntaxKind::Ident), SyntaxToken::Required(SyntaxKind::Reset)]),
        (SyntaxKind::CreateConversionStmt, seq![SyntaxToken::Required(SyntaxKind::Create), SyntaxToken::Optional(SyntaxKind::Default), SyntaxToken::Required(SyntaxKind::ConversionP)]),
        (SyntaxKind::CreateCastStmt, seq![SyntaxToken::Required(SyntaxKind::Create), SyntaxToken::Required(SyntaxKind::Cast)]),
        (SyntaxKind::CreateOpClassStmt, seq![SyntaxToken::Required(SyntaxKind::Create), SyntaxToken::Required(SyntaxKind::Operator), SyntaxToken::Required(SyntaxKind::Class)]),
        (SyntaxKind::CreateOpFamilyStmt, seq![SyntaxToken::Required(SyntaxKind::Create), SyntaxToken::Required(SyntaxKind::Operator), SyntaxToken::Required(SyntaxKind::Family)]),
        (SyntaxKind::AlterOpFamilyStmt, seq![SyntaxToken::Required(SyntaxKind::Alter), SyntaxToken::Required(SyntaxKind::Operator), SyntaxToken::Required(SyntaxKind::Family)]),
        (SyntaxKind::PrepareStmt, seq![SyntaxToken::Required(SyntaxKind::Prepare)]),
        (SyntaxKind::ExecuteStmt, seq![SyntaxToken::Required(SyntaxKind::Execute)]),
        (SyntaxKind::DeallocateStmt, seq![SyntaxToken::Required(SyntaxKind::Deallocate)]),
        (SyntaxKind::CreateTableSpaceStmt, seq![SyntaxToken::Required(SyntaxKind::Create), SyntaxToken::Required(SyntaxKind::Tablespace)]),
        (SyntaxKind::DropTableSpaceStmt, seq![SyntaxToken::Required(SyntaxKind::Drop), SyntaxToken::Required(SyntaxKind::Tablespace)]),
        (SyntaxKind::AlterOperatorStmt, seq![SyntaxToken::Required(SyntaxKind::Alter), SyntaxToken::Required(SyntaxKind::Operator)]),
        (SyntaxKind::AlterTypeStmt, seq![SyntaxToken::Required(SyntaxKind::Alter), SyntaxToken::Required(SyntaxKind::TypeP)]),
        (SyntaxKind::DropOwnedStmt, seq![SyntaxToken::Required(SyntaxKind::Drop), SyntaxToken::Required(SyntaxKind::Owned), SyntaxToken::Required(SyntaxKind::By)]),
        (SyntaxKind::ReassignOwnedStmt, seq![SyntaxToken::Required(SyntaxKind::Reassign), SyntaxToken::Required(SyntaxKind::Owned), SyntaxToken::Required(SyntaxKind::By)]),
        (SyntaxKind::CreateEnumStmt, seq![SyntaxToken::Required(SyntaxKind::Create), SyntaxToken::Required(SyntaxKind::TypeP), SyntaxToken::Required(SyntaxKind::Ident), SyntaxToken::Required(SyntaxKind::As), SyntaxToken::Required(SyntaxKind::EnumP)]),
        (SyntaxKind::CreateRangeStmt, seq![SyntaxToken::Required(SyntaxKind::Create), SyntaxToken::Required(SyntaxKind::TypeP), SyntaxToken::Required(SyntaxKind::Ident), SyntaxToken::Required(SyntaxKind::As), SyntaxToken::Required(SyntaxKind::Range)]),
        (SyntaxKind::CreateFdwStmt, seq![SyntaxToken::Required(SyntaxKind::Create), SyntaxToken::Required(SyntaxKind::Foreign), SyntaxToken::Required(SyntaxKind::DataP), SyntaxToken::Required(SyntaxKind::Wrapper)]),
        (SyntaxKind::AlterFdwStmt, seq![SyntaxToken::Required(SyntaxKind::Alter), SyntaxToken::Required(SyntaxKind::Foreign), SyntaxToken::Required(SyntaxKind::DataP), SyntaxToken::Required(SyntaxKind::Wrapper)]),
        (SyntaxKind::CreateForeignServerStmt, seq![SyntaxToken::Required(SyntaxKind::Create), SyntaxToken::Required(SyntaxKind::Server)]),
        (SyntaxKind::AlterForeignServerStmt, seq![SyntaxToken::Required(SyntaxKind::Alter), SyntaxToken::Required(SyntaxKind::Server)]),
        (SyntaxKind::CreateUserMappingStmt, seq![SyntaxToken::Required(SyntaxKind::Create), SyntaxToken::Required(SyntaxKind::User), SyntaxToken::Required(SyntaxKind::Mapping)]),
        (SyntaxKind::AlterUserMappingStmt, seq![SyntaxToken::Required(SyntaxKind::Alter), SyntaxToken::Required(SyntaxKind::User), SyntaxToken::Required(SyntaxKind::Mapping), SyntaxToken::Required(SyntaxKind::For)]),
        (SyntaxKind::DropUserMappingStmt, seq![SyntaxToken::Required(SyntaxKind::Drop), SyntaxToken::Required(SyntaxKind::User), SyntaxToken::Required(SyntaxKind::Mapping)]),
        (SyntaxKind::SecLabelStmt, seq![SyntaxToken::Required(SyntaxKind::Security), SyntaxToken::Required(SyntaxKind::Label)]),
        (SyntaxKind::CreateForeignTableStmt, seq![SyntaxToken::Required(SyntaxKind::Create), SyntaxToken::Required(SyntaxKind::Foreign), SyntaxToken::Required(SyntaxKind::Table)]),
        (SyntaxKind::ImportForeignSchemaStmt, seq![SyntaxToken::Required(SyntaxKind::ImportP), SyntaxToken::Required(SyntaxKind::Foreign), SyntaxToken::Required(SyntaxKind::Schema)]),
        (SyntaxKind::CreateExtensionStmt, seq![SyntaxToken::Required(SyntaxKind::Create), SyntaxToken::Required(SyntaxKind::Extension)]),
        (SyntaxKind::AlterExtensionStmt, seq![SyntaxToken::Required(SyntaxKind::Alter), SyntaxToken::Required(SyntaxKind::Extension)]),
        (SyntaxKind::CreateEventTrigStmt, seq![SyntaxToken::Required(SyntaxKind::Create), SyntaxToken::Required(SyntaxKind::Event), SyntaxToken::Required(SyntaxKind::Trigger)]),
        (SyntaxKind::AlterEventTrigStmt, seq![SyntaxToken::Required(SyntaxKind::Alter), SyntaxToken::Required(SyntaxKind::Event), SyntaxToken::Required(SyntaxKind::Trigger)]),
        (SyntaxKind::RefreshMatViewStmt, seq![SyntaxToken::Required(SyntaxKind::Refresh), SyntaxToken::Required(SyntaxKind::Materialized), SyntaxToken::Required(SyntaxKind::View)]),
        (SyntaxKind::AlterSystemStmt, seq![SyntaxToken::Required(SyntaxKind::Alter), SyntaxToken::Required(SyntaxKind::SystemP)]),
        (SyntaxKind::CreatePolicyStmt, seq![SyntaxToken::Required(SyntaxKind::Create), SyntaxToken::Required(SyntaxKind::Policy)]),
        (SyntaxKind::AlterPolicyStmt, seq![SyntaxToken::Required(SyntaxKind::Alter), SyntaxToken::Required(SyntaxKind::Policy)]),
        (SyntaxKind::CreateTransformStmt, seq![SyntaxToken::Required(SyntaxKind::Create), SyntaxToken::Optional(SyntaxKind::Or), SyntaxToken::Optional(SyntaxKind::Replace), SyntaxToken::Required(SyntaxKind::Transform), SyntaxToken::Required(SyntaxKind::For)]),
        (SyntaxKind::CreateAmStmt, seq![SyntaxToken::Required(SyntaxKind::Create), SyntaxToken::Required(SyntaxKind::Access), SyntaxToken::Required(SyntaxKind::Method)]),
        (SyntaxKind::CreatePublicationStmt, seq![SyntaxToken::Required(SyntaxKind::Create), SyntaxToken::Required(SyntaxKind::Publication)]),
        (SyntaxKind::AlterPublicationStmt, seq![SyntaxToken::Required(SyntaxKind::Alter), SyntaxToken::Required(SyntaxKind::Publication)]),
        (SyntaxKind::CreateSubscriptionStmt, seq![SyntaxToken::Required(SyntaxKind::Create), SyntaxToken::Required(SyntaxKind::Subscription)]),
        (SyntaxKind::AlterSubscriptionStmt, seq![SyntaxToken::Required(SyntaxKind::Alter), SyntaxToken::Required(SyntaxKind::Subscription)]),
        (SyntaxKind::DropSubscriptionStmt, seq![SyntaxToken::Required(SyntaxKind::Drop), SyntaxToken::Required(SyntaxKind::Subscription)]),
        (SyntaxKind::CreateStatsStmt, seq![SyntaxToken::Required(SyntaxKind::Create), SyntaxToken::Required(SyntaxKind::Statistics)]),
        (SyntaxKind::AlterCollationStmt, seq![SyntaxToken::Required(SyntaxKind::Alter), SyntaxToken::Required(SyntaxKind::Collation)]),
        (SyntaxKind::CallStmt, seq![SyntaxToken::Required(SyntaxKind::Call)]),
        (SyntaxKind::AlterStatsStmt, seq![SyntaxToken::Required(SyntaxKind::Alter), SyntaxToken::Required(SyntaxKind::Statistics)]),
    ]
}

/// The statements that are recognised, each with its start tokens (see
/// [`statement_definitions`]).
#[verifier::rlimit(100)]
pub fn statement_start_definitions() -> (r: Vec<StatementDefinition>)
    ensures
        definitions_view(r@) == statement_definitions(),
{
    let t0 = vec![SyntaxToken::Required(SyntaxKind::Insert), SyntaxToken::Required(SyntaxKind::Into)];
    assert(t0@ =~= seq![SyntaxToken::Required(SyntaxKind::Insert), SyntaxToken::Required(SyntaxKind::Into)]);
    let t1 = vec![SyntaxToken::Required(SyntaxKind::DeleteP), SyntaxToken::Required(SyntaxKind::From)];
    assert(t1@ =~= seq![SyntaxToken::Required(SyntaxKind::DeleteP), SyntaxToken::Required(SyntaxKind::From)]);
    let t2 = vec![SyntaxToken::Required(SyntaxKind::Update)];
    assert(t2@ =~= seq![SyntaxToken::Required(SyntaxKind::Update)]);
    let t3 = vec![SyntaxToken::Required(SyntaxKind::Merge), SyntaxToken::Required(SyntaxKind::Into)];
    assert(t3@ =~= seq![SyntaxToken::Required(SyntaxKind::Merge), SyntaxToken::Required(SyntaxKind::Into)]);
    let t4 = vec![SyntaxToken::Required(SyntaxKind::Select)];
    assert(t4@ =~= seq![SyntaxToken::Required(SyntaxKind::Select)]);
    let t5 = vec![SyntaxToken::Required(SyntaxKind::Alter), SyntaxToken::Required(SyntaxKind::Table), SyntaxToken::Optional(SyntaxKind::IfP), SyntaxToken::Optional(SyntaxKind::Exists), SyntaxToken::Optional(SyntaxKind::Only), SyntaxToken::Required(SyntaxKind::Ident)];
    assert(t5@ =~= seq![SyntaxToken::Required(SyntaxKind::Alter), SyntaxToken::Required(SyntaxKind::Table), SyntaxToken::Optional(SyntaxKind::IfP), SyntaxToken::Optional(SyntaxKind::Exists), SyntaxToken::Optional(SyntaxKind::Only), SyntaxToken::Required(SyntaxKind::Ident)]);
    let t6 = vec![SyntaxToken::Required(SyntaxKind::Alter), SyntaxToken::Required(SyntaxKind::Table), SyntaxToken::Optional(SyntaxKind::IfP), SyntaxToken::Optional(SyntaxKind::Exists), SyntaxToken::Optional(SyntaxKind::Only), SyntaxToken::Required(SyntaxKind::Ident), SyntaxToken::Required(SyntaxKind::Rename)];
    assert(t6@ =~= seq![SyntaxToken::Required(SyntaxKind::Alter), SyntaxToken::Required(SyntaxKind::Table), SyntaxToken::Optional(SyntaxKind::IfP), SyntaxToken::Optional(SyntaxKind::Exists), SyntaxToken::Optional(SyntaxKind::Only), SyntaxToken::Required(SyntaxKind::Ident), SyntaxToken::Required(SyntaxKind::Rename)]);
    let t7 = vec![SyntaxToken::Required(SyntaxKind::Alter), SyntaxToken::Required(SyntaxKind::DomainP)];
    assert(t7@ =~= seq![SyntaxToken::Required(SyntaxKind::Alter), SyntaxToken::Required(SyntaxKind::DomainP)]);
    let t8 = vec![SyntaxToken::Required(SyntaxKind::Alter), SyntaxToken::Required(SyntaxKind::Default), SyntaxToken::Required(SyntaxKind::Privileges)];
    assert(t8@ =~= seq![SyntaxToken::Required(SyntaxKind::Alter), SyntaxToken::Required(SyntaxKind::Default), SyntaxToken::Required(SyntaxKind::Privileges)]);
    let t9 = vec![SyntaxToken::Required(SyntaxKind::Cluster)];
    assert(t9@ =~= seq![SyntaxToken::Required(SyntaxKind::Cluster)]);
    let t10 = vec![SyntaxToken::Required(SyntaxKind::Copy)];
    assert(t10@ =~= seq![SyntaxToken::Required(SyntaxKind::Copy)]);
    let t11 = vec![SyntaxToken::Required(SyntaxKind::Create), SyntaxToken::Optional(SyntaxKind::Global), SyntaxToken::Optional(SyntaxKind::Local), SyntaxToken::Optional(SyntaxKind::Temporary), SyntaxToken::Optional(SyntaxKind::Temp), SyntaxToken::Optional(SyntaxKind::Unlogged), SyntaxToken::Optional(SyntaxKind::IfP), SyntaxToken::Optional(SyntaxKind::Not), SyntaxToken::Optional(SyntaxKind::Exists), SyntaxToken::Required(SyntaxKind::Table), SyntaxToken::Required(SyntaxKind::Ident)];
    assert(t11@ =~= seq![SyntaxToken::Required(SyntaxKind::Create), SyntaxToken::Optional(SyntaxKind::Global), SyntaxToken::Optional(SyntaxKind::Local), SyntaxToken::Optional(SyntaxKind::Temporary), SyntaxToken::Optional(SyntaxKind::Temp), SyntaxToken::Optional(SyntaxKind::Unlogged), SyntaxToken::Optional(SyntaxKind::IfP), SyntaxToken::Optional(SyntaxKind::Not), SyntaxToken::Optional(SyntaxKind::Exists), SyntaxToken::Required(SyntaxKind::Table), SyntaxToken::Required(SyntaxKind::Ident)]);
    let t12 = vec![SyntaxToken::Required(SyntaxKind::Create), SyntaxToken::Optional(SyntaxKind::Or), SyntaxToken::Optional(SyntaxKind::Replace), SyntaxToken::Required(SyntaxKind::Aggregate)];
    assert(t12@ =~= seq![SyntaxToken::Required(SyntaxKind::Create), SyntaxToken::Optional(SyntaxKind::Or), SyntaxToken::Optional(SyntaxKind::Replace), SyntaxToken::Required(SyntaxKind::Aggregate)]);
    let t13 = vec![SyntaxToken::Required(SyntaxKind::Create), SyntaxToken::Optional(SyntaxKind::Or), SyntaxToken::Optional(SyntaxKind::Replace), SyntaxToken::Required(SyntaxKind::Operator)];
    assert(t13@ =~= seq![SyntaxToken::Required(SyntaxKind::Create), SyntaxToken::Optional(SyntaxKind::Or), SyntaxToken::Optional(SyntaxKind::Replace), SyntaxToken::Required(SyntaxKind::Operator)]);
    let t14 = vec![SyntaxToken::Required(SyntaxKind::Create), SyntaxToken::Optional(SyntaxKind::Or), SyntaxToken::Optional(SyntaxKind::Replace), SyntaxToken::Required(SyntaxKind::TypeP)];
    assert(t14@ =~= seq![SyntaxToken::Required(SyntaxKind::Create), SyntaxToken::Optional(SyntaxKind::Or), SyntaxToken::Optional(SyntaxKind::Replace), SyntaxToken::Required(SyntaxKind::TypeP)]);
    let t15 = vec![SyntaxToken::Required(SyntaxKind::Drop)];
    assert(t15@ =~= seq![SyntaxToken::Required(SyntaxKind::Drop)]);
    let t16 = vec![SyntaxToken::Required(SyntaxKind::Truncate)];
    assert(t16@ =~= seq![SyntaxToken::Required(SyntaxKind::Truncate)]);
    let t17 = vec![SyntaxToken::Required(SyntaxKind::Comment), SyntaxToken::Required(SyntaxKind::On)];
    assert(t17@ =~= seq![SyntaxToken::Required(SyntaxKind::Comment), SyntaxToken::Required(SyntaxKind::On)]);
    let t18 = vec![SyntaxToken::Required(SyntaxKind::Fetch)];
    assert(t18@ =~= seq![SyntaxToken::Required(SyntaxKind::Fetch)]);
    let t19 = vec![SyntaxToken::Required(SyntaxKind::Create), SyntaxToken::Optional(SyntaxKind::Unique), SyntaxToken::Required(SyntaxKind::Index)];
    assert(t19@ =~= seq![SyntaxToken::Required(SyntaxKind::Create), SyntaxToken::Optional(SyntaxKind::Unique), SyntaxToken::Required(SyntaxKind::Index)]);
    let t20 = vec![SyntaxToken::Required(SyntaxKind::Create), SyntaxToken::Optional(SyntaxKind::Or), SyntaxToken::Optional(SyntaxKind::Replace), SyntaxToken::Required(SyntaxKind::Function)];
    assert(t20@ =~= seq![SyntaxToken::Required(SyntaxKind::Create), SyntaxToken::Optional(SyntaxKind::Or), SyntaxToken::Optional(SyntaxKind::Replace), SyntaxToken::Required(SyntaxKind::Function)]);
    let t21 = vec![SyntaxToken::Required(SyntaxKind::Alter), SyntaxToken::Required(SyntaxKind::Function)];
    assert(t21@ =~= seq![SyntaxToken::Required(SyntaxKind::Alter), SyntaxToken::Required(SyntaxKind::Function)]);
    let t22 = vec![SyntaxToken::Required(SyntaxKind::Do)];
    assert(t22@ =~= seq![SyntaxToken::Required(SyntaxKind::Do)]);
    let t23 = vec![SyntaxToken::Required(SyntaxKind::Create), SyntaxToken::Optional(SyntaxKind::Or), SyntaxToken::Optional(SyntaxKind::Replace), SyntaxToken::Required(SyntaxKind::Rule)];
    assert(t23@ =~= seq![SyntaxToken::Required(SyntaxKind::Create), SyntaxToken::Optional(SyntaxKind::Or), SyntaxToken::Optional(SyntaxKind::Replace), SyntaxToken::Required(SyntaxKind::Rule)]);
    let t24 = vec![SyntaxToken::Required(SyntaxKind::Notify)];
    assert(t24@ =~= seq![SyntaxToken::Required(SyntaxKind::Notify)]);
    let t25 = vec![SyntaxToken::Required(SyntaxKind::Listen)];
    assert(t25@ =~= seq![SyntaxToken::Required(SyntaxKind::Listen)]);
    let t26 = vec![SyntaxToken::Required(SyntaxKind::Unlisten)];
    assert(t26@ =~= seq![SyntaxToken::Required(SyntaxKind::Unlisten)]);
    let t27 = vec![SyntaxToken::Required(SyntaxKind::BeginP)];
    assert(t27@ =~= seq![SyntaxToken::Required(SyntaxKind::BeginP)]);
    let t28 = vec![SyntaxToken::Required(SyntaxKind::Commit)];
    assert(t28@ =~= seq![SyntaxToken::Required(SyntaxKind::Commit)]);
    let t29 = vec![SyntaxToken::Required(SyntaxKind::Create), SyntaxToken::Optional(SyntaxKind::Or), SyntaxToken::Optional(SyntaxKind::Replace), SyntaxToken::Optional(SyntaxKind::Temporary), SyntaxToken::Optional(SyntaxKind::Temp), SyntaxToken::Optional(SyntaxKind::Recursive), SyntaxToken::Required(SyntaxKind::View)];
    assert(t29@ =~= seq![SyntaxToken::Required(SyntaxKind::Create), SyntaxToken::Optional(SyntaxKind::Or), SyntaxToken::Optional(SyntaxKind::Replace), SyntaxToken::Optional(SyntaxKind::Temporary), SyntaxToken::Optional(SyntaxKind::Temp), SyntaxToken::Optional(SyntaxKind::Recursive), SyntaxToken::Required(SyntaxKind::View)]);
    let t30 = vec![SyntaxToken::Required(SyntaxKind::Load)];
    assert(t30@ =~= seq![SyntaxToken::Required(SyntaxKind::Load)]);
    let t31 = vec![SyntaxToken::Required(SyntaxKind::Create), SyntaxToken::Required(SyntaxKind::DomainP)];
    assert(t31@ =~= seq![SyntaxToken::Required(SyntaxKind::Create), SyntaxToken::Required(SyntaxKind::DomainP)]);
    let t32 = vec![SyntaxToken::Required(SyntaxKind::Create), SyntaxToken::Required(SyntaxKind::Database)];
    assert(t32@ =~= seq![SyntaxToken::Required(SyntaxKind::Create), SyntaxToken::Required(SyntaxKind::Database)]);
    let t33 = vec![SyntaxToken::Required(SyntaxKind::Drop), SyntaxToken::Required(SyntaxKind::Database)];
    assert(t33@ =~= seq![SyntaxToken::Required(SyntaxKind::Drop), SyntaxToken::Required(SyntaxKind::Database)]);
    let t34 = vec![SyntaxToken::Required(SyntaxKind::Vacuum)];
    assert(t34@ =~= seq![SyntaxToken::Required(SyntaxKind::Vacuum)]);
    let t35 = vec![SyntaxToken::Required(SyntaxKind::Explain)];
    assert(t35@ =~= seq![SyntaxToken::Required(SyntaxKind::Explain)]);
    let t36 = vec![SyntaxToken::Required(SyntaxKind::Create), SyntaxToken::Optional(SyntaxKind::Global), SyntaxToken::Optional(SyntaxKind::Local), SyntaxToken::Optional(SyntaxKind::Temporary), SyntaxToken::Optional(SyntaxKind::Temp), SyntaxToken::Required(SyntaxKind::Table), SyntaxToken::Required(SyntaxKind::Ident), SyntaxToken::Required(SyntaxKind::As)];
    assert(t36@ =~= seq![SyntaxToken::Required(SyntaxKind::Create), SyntaxToken::Optional(SyntaxKind::Global), SyntaxToken::Optional(SyntaxKind::Local), SyntaxToken::Optional(SyntaxKind::Temporary), SyntaxToken::Optional(SyntaxKind::Temp), SyntaxToken::Required(SyntaxKind::Table), SyntaxToken::Required(SyntaxKind::Ident), SyntaxToken::Required(SyntaxKind::As)]);
    let t37 = vec![SyntaxToken::Required(SyntaxKind::Create), SyntaxToken::Optional(SyntaxKind::Temporary), SyntaxToken::Optional(SyntaxKind::Temp), SyntaxToken::Optional(SyntaxKind::Unlogged), SyntaxToken::Required(SyntaxKind::Sequence)];
    assert(t37@ =~= seq![SyntaxToken::Required(SyntaxKind::Create), SyntaxToken::Optional(SyntaxKind::Temporary), SyntaxToken::Optional(SyntaxKind::Temp), SyntaxToken::Optional(SyntaxKind::Unlogged), SyntaxToken::Required(SyntaxKind::Sequence)]);
    let t38 = vec![SyntaxToken::Required(SyntaxKind::Alter), SyntaxToken::Required(SyntaxKind::Sequence)];
    assert(t38@ =~= seq![SyntaxToken::Required(SyntaxKind::Alter), SyntaxToken::Required(SyntaxKind::Sequence)]);
    let t39 = vec![SyntaxToken::Required(SyntaxKind::SetKw)];
    assert(t39@ =~= seq![SyntaxToken::Required(SyntaxKind::SetKw)]);
    let t40 = vec![SyntaxToken::Required(SyntaxKind::Show)];
    assert(t40@ =~= seq![SyntaxToken::Required(SyntaxKind::Show)]);
    let t41 = vec![SyntaxToken::Required(SyntaxKind::Discard)];
    assert(t41@ =~= seq![SyntaxToken::Required(SyntaxKind::Discard)]);
    let t42 = vec![SyntaxToken::Required(SyntaxKind::Create), SyntaxToken::Optional(SyntaxKind::Or), SyntaxToken::Optional(SyntaxKind::Replace), SyntaxToken::Optional(SyntaxKind::Constraint), SyntaxToken::Required(SyntaxKind::Trigger)];
    assert(t42@ =~= seq![SyntaxToken::Required(SyntaxKind::Create), SyntaxToken::Optional(SyntaxKind::Or), SyntaxToken::Optional(SyntaxKind::Replace), SyntaxToken::Optional(SyntaxKind::Constraint), SyntaxToken::Required(SyntaxKind::Trigger)]);
    let t43 = vec![SyntaxToken::Required(SyntaxKind::Create), SyntaxToken::Required(SyntaxKind::Role)];
    assert(t43@ =~= seq![SyntaxToken::Required(SyntaxKind::Create), SyntaxToken::Required(SyntaxKind::Role)]);
    let t44 = vec![SyntaxToken::Required(SyntaxKind::Alter), SyntaxToken::Required(SyntaxKind::Role)];
    assert(t44@ =~= seq![SyntaxToken::Required(SyntaxKind::Alter), SyntaxToken::Required(SyntaxKind::Role)]);
    let t45 = vec![SyntaxToken::Required(SyntaxKind::Drop), SyntaxToken::Required(SyntaxKind::Role)];
    assert(t45@ =~= seq![SyntaxToken::Required(SyntaxKind::Drop), SyntaxToken::Required(SyntaxKind::Role)]);
    let t46 = vec![SyntaxToken::Required(SyntaxKind::LockP)];
    assert(t46@ =~= seq![SyntaxToken::Required(SyntaxKind::LockP)]);
    let t47 = vec![SyntaxToken::Required(SyntaxKind::SetKw), SyntaxToken::Required(SyntaxKind::Constraints)];
    assert(t47@ =~= seq![SyntaxToken::Required(SyntaxKind::SetKw), SyntaxToken::Required(SyntaxKind::Constraints)]);
    let t48 = vec![SyntaxToken::Required(SyntaxKind::Reindex)];
    assert(t48@ =~= seq![SyntaxToken::Required(SyntaxKind::Reindex)]);
    let t49 = vec![SyntaxToken::Required(SyntaxKind::Checkpoint)];
    assert(t49@ =~= seq![SyntaxToken::Required(SyntaxKind::Checkpoint)]);
    let t50 = vec![SyntaxToken::Required(SyntaxKind::Create), SyntaxToken::Required(SyntaxKind::Schema)];
    assert(t50@ =~= seq![SyntaxToken::Required(SyntaxKind::Create), SyntaxToken::Required(SyntaxKind::Schema)]);
    let t51 = vec![SyntaxToken::Required(SyntaxKind::Alter), SyntaxToken::Required(SyntaxKind::Database), SyntaxToken::Required(SyntaxKind::Ident)];
    assert(t51@ =~= seq![SyntaxToken::Required(SyntaxKind::Alter), SyntaxToken::Required(SyntaxKind::Database), SyntaxToken::Required(SyntaxKind::Ident)]);
    let t52 = vec![SyntaxToken::Required(SyntaxKind::Alter), SyntaxToken::Required(SyntaxKind::Database), SyntaxToken::Required(SyntaxKind::Ident), SyntaxToken::Required(SyntaxKind::Refresh), SyntaxToken::Required(SyntaxKind::Collation), SyntaxToken::Required(SyntaxKind::VersionP)];
    assert(t52@ =~= seq![SyntaxToken::Required(SyntaxKind::Alter), SyntaxToken::Required(SyntaxKind::Database), SyntaxToken::Required(SyntaxKind::Ident), SyntaxToken::Required(SyntaxKind::Refresh), SyntaxToken::Required(SyntaxKind::Collation), SyntaxToken::Required(SyntaxKind::VersionP)]);
    let t53 = vec![SyntaxToken::Required(SyntaxKind::Alter), SyntaxToken::Required(SyntaxKind::Database), SyntaxToken::Required(SyntaxKind::Ident), SyntaxToken::Required(SyntaxKind::SetKw)];
    assert(t53@ =~= seq![SyntaxToken::Required(SyntaxKind::Alter), SyntaxToken::Required(SyntaxKind::Database), SyntaxToken::Required(SyntaxKind::Ident), SyntaxToken::Required(SyntaxKind::SetKw)]);
    let t54 = vec![SyntaxToken::Required(SyntaxKind::Alter), SyntaxToken::Required(SyntaxKind::Database), SyntaxToken::Required(SyntaxKind::Ident), SyntaxToken::Required(SyntaxKind::Reset)];
    assert(t54@ =~= seq![SyntaxToken::Required(SyntaxKind::Alter), SyntaxToken::Required(SyntaxKind::Database), SyntaxToken::Required(SyntaxKind::Ident), SyntaxToken::Required(SyntaxKind::Reset)]);
    let t55 = vec![SyntaxToken::Required(SyntaxKind::Create), SyntaxToken::Optional(SyntaxKind::Default), SyntaxToken::Required(SyntaxKind::ConversionP)];
    assert(t55@ =~= seq![SyntaxToken::Required(SyntaxKind::Create), SyntaxToken::Optional(SyntaxKind::Default), SyntaxToken::Required(SyntaxKind::ConversionP)]);
    let t56 = vec![SyntaxToken::Required(SyntaxKind::Create), SyntaxToken::Required(SyntaxKind::Cast)];
    assert(t56@ =~= seq![SyntaxToken::Required(SyntaxKind::Create), SyntaxToken::Required(SyntaxKind::Cast)]);
    let t57 = vec![SyntaxToken::Required(SyntaxKind::Create), SyntaxToken::Required(SyntaxKind::Operator), SyntaxToken::Required(SyntaxKind::Class)];
    assert(t57@ =~= seq![SyntaxToken::Required(SyntaxKind::Create), SyntaxToken::Required(SyntaxKind::Operator), SyntaxToken::Required(SyntaxKind::Class)]);
    let t58 = vec![SyntaxToken::Required(SyntaxKind::Create), SyntaxToken::Required(SyntaxKind::Operator), SyntaxToken::Required(SyntaxKind::Family)];
    assert(t58@ =~= seq![SyntaxToken::Required(SyntaxKind::Create), SyntaxToken::Required(SyntaxKind::Operator), SyntaxToken::Required(SyntaxKind::Family)]);
    let t59 = vec![SyntaxToken::Required(SyntaxKind::Alter), SyntaxToken::Required(SyntaxKind::Operator), SyntaxToken::Required(SyntaxKind::Family)];
    assert(t59@ =~= seq![SyntaxToken::Required(SyntaxKind::Alter), SyntaxToken::Required(SyntaxKind::Operator), SyntaxToken::Required(SyntaxKind::Family)]);
    let t60 = vec![SyntaxToken::Required(SyntaxKind::Prepare)];
    assert(t60@ =~= seq![SyntaxToken::Required(SyntaxKind::Prepare)]);
    let t61 = vec![SyntaxToken::Required(SyntaxKind::Execute)];
    assert(t61@ =~= seq![SyntaxToken::Required(SyntaxKind::Execute)]);
    let t62 = vec![SyntaxToken::Required(SyntaxKind::Deallocate)];
    assert(t62@ =~= seq![SyntaxToken::Required(SyntaxKind::Deallocate)]);
    let t63 = vec![SyntaxToken::Required(SyntaxKind::Create), SyntaxToken::Required(SyntaxKind::Tablespace)];
    assert(t63@ =~= seq![SyntaxToken::Required(SyntaxKind::Create), SyntaxToken::Required(SyntaxKind::Tablespace)]);
    let t64 = vec![SyntaxToken::Required(SyntaxKind::Drop), SyntaxToken::Required(SyntaxKind::Tablespace)];
    assert(t64@ =~= seq![SyntaxToken::Required(SyntaxKind::Drop), SyntaxToken::Required(SyntaxKind::Tablespace)]);
    let t65 = vec![SyntaxToken::Required(SyntaxKind::Alter), SyntaxToken::Required(SyntaxKind::Operator)];
    assert(t65@ =~= seq![SyntaxToken::Required(SyntaxKind::Alter), SyntaxToken::Required(SyntaxKind::Operator)]);
    let t66 = vec![SyntaxToken::Required(SyntaxKind::Alter), SyntaxToken::Required(SyntaxKind::TypeP)];
    assert(t66@ =~= seq![SyntaxToken::Required(SyntaxKind::Alter), SyntaxToken::Required(SyntaxKind::TypeP)]);
    let t67 = vec![SyntaxToken::Required(SyntaxKind::Drop), SyntaxToken::Required(SyntaxKind::Owned), SyntaxToken::Required(SyntaxKind::By)];
    assert(t67@ =~= seq![SyntaxToken::Required(SyntaxKind::Drop), SyntaxToken::Required(SyntaxKind::Owned), SyntaxToken::Required(SyntaxKind::By)]);
    let t68 = vec![SyntaxToken::Required(SyntaxKind::Reassign), SyntaxToken::Required(SyntaxKind::Owned), SyntaxToken::Required(SyntaxKind::By)];
    assert(t68@ =~= seq![SyntaxToken::Required(SyntaxKind::Reassign), SyntaxToken::Required(SyntaxKind::Owned), SyntaxToken::Required(SyntaxKind::By)]);
    let t69 = vec![SyntaxToken::Required(SyntaxKind::Create), SyntaxToken::Required(SyntaxKind::TypeP), SyntaxToken::Required(SyntaxKind::Ident), SyntaxToken::Required(SyntaxKind::As), SyntaxToken::Required(SyntaxKind::EnumP)];
    assert(t69@ =~= seq![SyntaxToken::Required(SyntaxKind::Create), SyntaxToken::Required(SyntaxKind::TypeP), SyntaxToken::Required(SyntaxKind::Ident), SyntaxToken::Required(SyntaxKind::As), SyntaxToken::Required(SyntaxKind::EnumP)]);
    let t70 = vec![SyntaxToken::Required(SyntaxKind::Create), SyntaxToken::Required(SyntaxKind::TypeP), SyntaxToken::Required(SyntaxKind::Ident), SyntaxToken::Required(SyntaxKind::As), SyntaxToken::Required(SyntaxKind::Range)];
    assert(t70@ =~= seq![SyntaxToken::Required(SyntaxKind::Create), SyntaxToken::Required(SyntaxKind::TypeP), SyntaxToken::Required(SyntaxKind::Ident), SyntaxToken::Required(SyntaxKind::As), SyntaxToken::Required(SyntaxKind::Range)]);
    let t71 = vec![SyntaxToken::Required(SyntaxKind::Create), SyntaxToken::Required(SyntaxKind::Foreign), SyntaxToken::Required(SyntaxKind::DataP), SyntaxToken::Required(SyntaxKind::Wrapper)];
    assert(t71@ =~= seq![SyntaxToken::Required(SyntaxKind::Create), SyntaxToken::Required(SyntaxKind::Foreign), SyntaxToken::Required(SyntaxKind::DataP), SyntaxToken::Required(SyntaxKind::Wrapper)]);
    let t72 = vec![SyntaxToken::Required(SyntaxKind::Alter), SyntaxToken::Required(SyntaxKind::Foreign), SyntaxToken::Required(SyntaxKind::DataP), SyntaxToken::Required(SyntaxKind::Wrapper)];
    assert(t72@ =~= seq![SyntaxToken::Required(SyntaxKind::Alter), SyntaxToken::Required(SyntaxKind::Foreign), SyntaxToken::Required(SyntaxKind::DataP), SyntaxToken::Required(SyntaxKind::Wrapper)]);
    let t73 = vec![SyntaxToken::Required(SyntaxKind::Create), SyntaxToken::Required(SyntaxKind::Server)];
    assert(t73@ =~= seq![SyntaxToken::Required(SyntaxKind::Create), SyntaxToken::Required(SyntaxKind::Server)]);
    let t74 = vec![SyntaxToken::Required(SyntaxKind::Alter), SyntaxToken::Required(SyntaxKind::Server)];
    assert(t74@ =~= seq![SyntaxToken::Required(SyntaxKind::Alter), SyntaxToken::Required(SyntaxKind::Server)]);
    let t75 = vec![SyntaxToken::Required(SyntaxKind::Create), SyntaxToken::Required(SyntaxKind::User), SyntaxToken::Required(SyntaxKind::Mapping)];
    assert(t75@ =~= seq![SyntaxToken::Required(SyntaxKind::Create), SyntaxToken::Required(SyntaxKind::User), SyntaxToken::Required(SyntaxKind::Mapping)]);
    let t76 = vec![SyntaxToken::Required(SyntaxKind::Alter), SyntaxToken::Required(SyntaxKind::User), SyntaxToken::Required(SyntaxKind::Mapping), SyntaxToken::Required(SyntaxKind::For)];
    assert(t76@ =~= seq![SyntaxToken::Required(SyntaxKind::Alter), SyntaxToken::Required(SyntaxKind::User), SyntaxToken::Required(SyntaxKind::Mapping), SyntaxToken::Required(SyntaxKind::For)]);
    let t77 = vec![SyntaxToken::Required(SyntaxKind::Drop), SyntaxToken::Required(SyntaxKind::User), SyntaxToken::Required(SyntaxKind::Mapping)];
    assert(t77@ =~= seq![SyntaxToken::Required(SyntaxKind::Drop), SyntaxToken::Required(SyntaxKind::User), SyntaxToken::Required(SyntaxKind::Mapping)]);
    let t78 = vec![SyntaxToken::Required(SyntaxKind::Security), SyntaxToken::Required(SyntaxKind::Label)];
    assert(t78@ =~= seq![SyntaxToken::Required(SyntaxKind::Security), SyntaxToken::Required(SyntaxKind::Label)]);
    let t79 = vec![SyntaxToken::Required(SyntaxKind::Create), SyntaxToken::Required(SyntaxKind::Foreign), SyntaxToken::Required(SyntaxKind::Table)];
    assert(t79@ =~= seq![SyntaxToken::Required(SyntaxKind::Create), SyntaxToken::Required(SyntaxKind::Foreign), SyntaxToken::Required(SyntaxKind::Table)]);
    let t80 = vec![SyntaxToken::Required(SyntaxKind::ImportP), SyntaxToken::Required(SyntaxKind::Foreign), SyntaxToken::Required(SyntaxKind::Schema)];
    assert(t80@ =~= seq![SyntaxToken::Required(SyntaxKind::ImportP), SyntaxToken::Required(SyntaxKind::Foreign), SyntaxToken::Required(SyntaxKind::Schema)]);
    let t81 = vec![SyntaxToken::Required(SyntaxKind::Create), SyntaxToken::Required(SyntaxKind::Extension)];
    assert(t81@ =~= seq![SyntaxToken::Required(SyntaxKind::Create), SyntaxToken::Required(SyntaxKind::Extension)]);
    let t82 = vec![SyntaxToken::Required(SyntaxKind::Alter), SyntaxToken::Required(SyntaxKind::Extension)];
    assert(t82@ =~= seq![SyntaxToken::Required(SyntaxKind::Alter), SyntaxToken::Required(SyntaxKind::Extension)]);
    let t83 = vec![SyntaxToken::Required(SyntaxKind::Create), SyntaxToken::Required(SyntaxKind::Event), SyntaxToken::Required(SyntaxKind::Trigger)];
    assert(t83@ =~= seq![SyntaxToken::Required(SyntaxKind::Create), SyntaxToken::Required(SyntaxKind::Event), SyntaxToken::Required(SyntaxKind::Trigger)]);
    let t84 = vec![SyntaxToken::Required(SyntaxKind::Alter), SyntaxToken::Required(SyntaxKind::Event), SyntaxToken::Required(SyntaxKind::Trigger)];
    assert(t84@ =~= seq![SyntaxToken::Required(SyntaxKind::Alter), SyntaxToken::Required(SyntaxKind::Event), SyntaxToken::Required(SyntaxKind::Trigger)]);
    let t85 = vec![SyntaxToken::Required(SyntaxKind::Refresh), SyntaxToken::Required(SyntaxKind::Materialized), SyntaxToken::Required(SyntaxKind::View)];
    assert(t85@ =~= seq![SyntaxToken::Required(SyntaxKind::Refresh), SyntaxToken::Required(SyntaxKind::Materialized), SyntaxToken::Required(SyntaxKind::View)]);
    let t86 = vec![SyntaxToken::Required(SyntaxKind::Alter), SyntaxToken::Required(SyntaxKind::SystemP)];
    assert(t86@ =~= seq![SyntaxToken::Required(SyntaxKind::Alter), SyntaxToken::Required(SyntaxKind::SystemP)]);
    let t87 = vec![SyntaxToken::Required(SyntaxKind::Create), SyntaxToken::Required(SyntaxKind::Policy)];
    assert(t87@ =~= seq![SyntaxToken::Required(SyntaxKind::Create), SyntaxToken::Required(SyntaxKind::Policy)]);
    let t88 = vec![SyntaxToken::Required(SyntaxKind::Alter), SyntaxToken::Required(SyntaxKind::Policy)];
    assert(t88@ =~= seq![SyntaxToken::Required(SyntaxKind::Alter), SyntaxToken::Required(SyntaxKind::Policy)]);
    let t89 = vec![SyntaxToken::Required(SyntaxKind::Create), SyntaxToken::Optional(SyntaxKind::Or), SyntaxToken::Optional(SyntaxKind::Replace), SyntaxToken::Required(SyntaxKind::Transform), SyntaxToken::Required(SyntaxKind::For)];
    assert(t89@ =~= seq![SyntaxToken::Required(SyntaxKind::Create), SyntaxToken::Optional(SyntaxKind::Or), SyntaxToken::Optional(SyntaxKind::Replace), SyntaxToken::Required(SyntaxKind::Transform), SyntaxToken::Required(SyntaxKind::For)]);
    let t90 = vec![SyntaxToken::Required(SyntaxKind::Create), SyntaxToken::Required(SyntaxKind::Access), SyntaxToken::Required(SyntaxKind::Method)];
    assert(t90@ =~= seq![SyntaxToken::Required(SyntaxKind::Create), SyntaxToken::Required(SyntaxKind::Access), SyntaxToken::Required(SyntaxKind::Method)]);
    let t91 = vec![SyntaxToken::Required(SyntaxKind::Create), SyntaxToken::Required(SyntaxKind::Publication)];
    assert(t91@ =~= seq![SyntaxToken::Required(SyntaxKind::Create), SyntaxToken::Required(SyntaxKind::Publication)]);
    let t92 = vec![SyntaxToken::Required(SyntaxKind::Alter), SyntaxToken::Required(SyntaxKind::Publication)];
    assert(t92@ =~= seq![SyntaxToken::Required(SyntaxKind::Alter), SyntaxToken::Required(SyntaxKind::Publication)]);
    let t93 = vec![SyntaxToken::Required(SyntaxKind::Create), SyntaxToken::Required(SyntaxKind::Subscription)];
    assert(t93@ =~= seq![SyntaxToken::Required(SyntaxKind::Create), SyntaxToken::Required(SyntaxKind::Subscription)]);
    let t94 = vec![SyntaxToken::Required(SyntaxKind::Alter), SyntaxToken::Required(SyntaxKind::Subscription)];
    assert(t94@ =~= seq![SyntaxToken::Required(SyntaxKind::Alter), SyntaxToken::Required(SyntaxKind::Subscription)]);
    let t95 = vec![SyntaxToken::Required(SyntaxKind::Drop), SyntaxToken::Required(SyntaxKind::Subscription)];
    assert(t95@ =~= seq![SyntaxToken::Required(SyntaxKind::Drop), SyntaxToken::Required(SyntaxKind::Subscription)]);
    let t96 = vec![SyntaxToken::Required(SyntaxKind::Create), SyntaxToken::Required(SyntaxKind::Statistics)];
    assert(t96@ =~= seq![SyntaxToken::Required(SyntaxKind::Create), SyntaxToken::Required(SyntaxKind::Statistics)]);
    let t97 = vec![SyntaxToken::Required(SyntaxKind::Alter), SyntaxToken::Required(SyntaxKind::Collation)];
    assert(t97@ =~= seq![SyntaxToken::Required(SyntaxKind::Alter), SyntaxToken::Required(SyntaxKind::Collation)]);
    let t98 = vec![SyntaxToken::Required(SyntaxKind::Call)];
    assert(t98@ =~= seq![SyntaxToken::Required(SyntaxKind::Call)]);
    let t99 = vec![SyntaxToken::Required(SyntaxKind::Alter), SyntaxToken::Required(SyntaxKind::Statistics)];
    assert(t99@ =~= seq![SyntaxToken::Required(SyntaxKind::Alter), SyntaxToken::Required(SyntaxKind::Statistics)]);
    let r = vec![
        (SyntaxKind::InsertStmt, t0),
        (SyntaxKind::DeleteStmt, t1),
        (SyntaxKind::UpdateStmt, t2),
        (SyntaxKind::MergeStmt, t3),
        (SyntaxKind::SelectStmt, t4),
        (SyntaxKind::AlterTableStmt, t5),
        (SyntaxKind::RenameStmt, t6),
        (SyntaxKind::AlterDomainStmt, t7),
        (SyntaxKind::AlterDefaultPrivilegesStmt, t8),
        (SyntaxKind::ClusterStmt, t9),
        (SyntaxKind::CopyStmt, t10),
        (SyntaxKind::CreateStmt, t11),
        (SyntaxKind::DefineStmt, t12),
        (SyntaxKind::DefineStmt, t13),
        (SyntaxKind::DefineStmt, t14),
        (SyntaxKind::DropStmt, t15),
        (SyntaxKind::TruncateStmt, t16),
        (SyntaxKind::CommentStmt, t17),
        (SyntaxKind::FetchStmt, t18),
        (SyntaxKind::IndexStmt, t19),
        (SyntaxKind::CreateFunctionStmt, t20),
        (SyntaxKind::AlterFunctionStmt, t21),
        (SyntaxKind::DoStmt, t22),
        (SyntaxKind::RuleStmt, t23),
        (SyntaxKind::NotifyStmt, t24),
        (SyntaxKind::ListenStmt, t25),
        (SyntaxKind::UnlistenStmt, t26),
        (SyntaxKind::TransactionStmt, t27),
        (SyntaxKind::TransactionStmt, t28),
        (SyntaxKind::ViewStmt, t29),
        (SyntaxKind::LoadStmt, t30),
        (SyntaxKind::CreateDomainStmt, t31),
        (SyntaxKind::CreatedbStmt, t32),
        (SyntaxKind::DropdbStmt, t33),
        (SyntaxKind::VacuumStmt, t34),
        (SyntaxKind::ExplainStmt, t35),
        (SyntaxKind::CreateTableAsStmt, t36),
        (SyntaxKind::CreateSeqStmt, t37),
        (SyntaxKind::AlterSeqStmt, t38),
        (SyntaxKind::VariableSetStmt, t39),
        (SyntaxKind::VariableShowStmt, t40),
        (SyntaxKind::DiscardStmt, t41),
        (SyntaxKind::CreateTrigStmt, t42),
        (SyntaxKind::CreateRoleStmt, t43),
        (SyntaxKind::AlterRoleStmt, t44),
        (SyntaxKind::DropRoleStmt, t45),
        (SyntaxKind::LockStmt, t46),
        (SyntaxKind::ConstraintsSetStmt, t47),
        (SyntaxKind::ReindexStmt, t48),
        (SyntaxKind::CheckPointStmt, t49),
        (SyntaxKind::CreateSchemaStmt, t50),
        (SyntaxKind::AlterDatabaseStmt, t51),
        (SyntaxKind::AlterDatabaseRefreshCollStmt, t52),
        (SyntaxKind::AlterDatabaseSetStmt, t53),
        (SyntaxKind::AlterDatabaseSetStmt, t54),
        (SyntaxKind::CreateConversionStmt, t55),
        (SyntaxKind::CreateCastStmt, t56),
        (SyntaxKind::CreateOpClassStmt, t57),
        (SyntaxKind::CreateOpFamilyStmt, t58),
        (SyntaxKind::AlterOpFamilyStmt, t59),
        (SyntaxKind::PrepareStmt, t60),
        (SyntaxKind::ExecuteStmt, t61),
        (SyntaxKind::DeallocateStmt, t62),
        (SyntaxKind::CreateTableSpaceStmt, t63),
        (SyntaxKind::DropTableSpaceStmt, t64),
        (SyntaxKind::AlterOperatorStmt, t65),
        (SyntaxKind::AlterTypeStmt, t66),
        (SyntaxKind::DropOwnedStmt, t67),
        (SyntaxKind::ReassignOwnedStmt, t68),
        (SyntaxKind::CreateEnumStmt, t69),
        (SyntaxKind::CreateRangeStmt, t70),
        (SyntaxKind::CreateFdwStmt, t71),
        (SyntaxKind::AlterFdwStmt, t72),
        (SyntaxKind::CreateForeignServerStmt, t73),
        (SyntaxKind::AlterForeignServerStmt, t74),
        (SyntaxKind::CreateUserMappingStmt, t75),
        (SyntaxKind::AlterUserMappingStmt, t76),
        (SyntaxKind::DropUserMappingStmt, t77),
        (SyntaxKind::SecLabelStmt, t78),
        (SyntaxKind::CreateForeignTableStmt, t79),
        (SyntaxKind::ImportForeignSchemaStmt, t80),
        (SyntaxKind::CreateExtensionStmt, t81),
        (SyntaxKind::AlterExtensionStmt, t82),
        (SyntaxKind::CreateEventTrigStmt, t83),
        (SyntaxKind::AlterEventTrigStmt, t84),
        (SyntaxKind::RefreshMatViewStmt, t85),
        (SyntaxKind::AlterSystemStmt, t86),
        (SyntaxKind::CreatePolicyStmt, t87),
        (SyntaxKind::AlterPolicyStmt, t88),
        (SyntaxKind::CreateTransformStmt, t89),
        (SyntaxKind::CreateAmStmt, t90),
        (SyntaxKind::CreatePublicationStmt, t91),
        (SyntaxKind::AlterPublicationStmt, t92),
        (SyntaxKind::CreateSubscriptionStmt, t93),
        (SyntaxKind::AlterSubscriptionStmt, t94),
        (SyntaxKind::DropSubscriptionStmt, t95),
        (SyntaxKind::CreateStatsStmt, t96),
        (SyntaxKind::AlterCollationStmt, t97),
        (SyntaxKind::CallStmt, t98),
        (SyntaxKind::AlterStatsStmt, t99),
    ];
    assert(definitions_view(r@) =~= statement_definitions());
    r
}

/// A level of the start table: token kinds, each at most once, with their
/// candidates in the order the definitions give them.
pub type StartLevel = Vec<(SyntaxKind, Vec<TokenStatement>)>;

/// The view of a level.
pub open spec fn level_view(level: Seq<(SyntaxKind, Vec<TokenStatement>)>) -> Seq<(SyntaxKind, Seq<TokenStatement>)> {
    level.map_values(|e: (SyntaxKind, Vec<TokenStatement>)| (e.0, e.1@))
}

/// Each kind at most once in a level, and never with an empty list.
pub open spec fn level_wf(level: Seq<(SyntaxKind, Seq<TokenStatement>)>) -> bool {
    &&& forall|a: int, b: int|
        0 <= a < level.len() && 0 <= b < level.len() && (#[trigger] level[a]).0 == (#[trigger] level[b]).0
            ==> a == b
    &&& forall|a: int| 0 <= a < level.len() ==> (#[trigger] level[a]).1.len() > 0
}

/// The candidates a level lists for `kind`, if it lists the kind.
pub open spec fn level_get(level: Seq<(SyntaxKind, Seq<TokenStatement>)>, kind: SyntaxKind) -> Option<Seq<TokenStatement>> {
    if exists|j: int| 0 <= j < level.len() && (#[trigger] level[j]).0 == kind {
        Some(level[choose|j: int| 0 <= j < level.len() && (#[trigger] level[j]).0 == kind].1)
    } else {
        None
    }
}

/// The start table: one level per position of a start token.
pub struct StartTokenMaps {
    pub levels: Vec<StartLevel>,
}

impl View for StartTokenMaps {
    type V = Seq<Seq<(SyntaxKind, Seq<TokenStatement>)>>;

    open spec fn view(&self) -> Seq<Seq<(SyntaxKind, Seq<TokenStatement>)>> {
        self.levels@.map_values(|l: StartLevel| level_view(l@))
    }
}

/// The candidates level `i` of a table lists for `kind`, if it lists the kind.
pub open spec fn maps_get(maps: Seq<Seq<(SyntaxKind, Seq<TokenStatement>)>>, i: int, kind: SyntaxKind) -> Option<Seq<TokenStatement>> {
    level_get(maps[i], kind)
}

/// The number of optional tokens among the first `j` start tokens.
pub open spec fn optionals_before(tokens: Seq<SyntaxToken>, j: int) -> int
    decreases j,
{
    if j <= 0 {
        0
    } else {
        optionals_before(tokens, j - 1) + if tokens[j - 1] is Optional { 1int } else { 0 }
    }
}

/// Whether start token `j` may stand at position `i`: it stands at `j` when
/// all optional tokens before it are there, and one place earlier for each
/// that is left out.
pub open spec fn reaches_level(tokens: Seq<SyntaxToken>, j: int, i: int) -> bool {
    j - optionals_before(tokens, j) <= i <= j
}

/// The candidate that start token `j` of `statement` stands for: the
/// statement is complete after its last token, which is never optional.
pub open spec fn start_candidate(statement: SyntaxKind, tokens: Seq<SyntaxToken>, j: int) -> TokenStatement {
    if tokens[j] is Required && j == tokens.len() - 1 {
        TokenStatement::EoS(statement)
    } else {
        TokenStatement::Any(statement)
    }
}

/// The candidates of one definition at position `i` for `kind`, from its
/// first `n` start tokens, in order.
pub open spec fn definition_candidates(
    statement: SyntaxKind,
    tokens: Seq<SyntaxToken>,
    i: int,
    kind: SyntaxKind,
    n: int,
) -> Seq<TokenStatement>
    decreases n,
{
    if n <= 0 {
        Seq::empty()
    } else {
        definition_candidates(statement, tokens, i, kind, n - 1) + if tokens[n - 1].token_kind() == kind
            && reaches_level(tokens, n - 1, i) {
            seq![start_candidate(statement, tokens, n - 1)]
        } else {
            Seq::empty()
        }
    }
}

/// The candidates at position `i` for `kind` from the first `n`
/// definitions, in order.
pub open spec fn table_candidates(defs: Seq<(SyntaxKind, Seq<SyntaxToken>)>, i: int, kind: SyntaxKind, n: int) -> Seq<TokenStatement>
    decreases n,
{
    if n <= 0 {
        Seq::empty()
    } else {
        table_candidates(defs, i, kind, n - 1) + definition_candidates(
            defs[n - 1].0,
            defs[n - 1].1,
            i,
            kind,
            defs[n - 1].1.len() as int,
        )
    }
}

/// The largest number of start tokens among the first `n` definitions.
pub open spec fn longest_definition(defs: Seq<(SyntaxKind, Seq<SyntaxToken>)>, n: int) -> int
    decreases n,
{
    if n <= 0 {
        0
    } else {
        let m = longest_definition(defs, n - 1);
        if defs[n - 1].1.len() > m {
            defs[n - 1].1.len() as int
        } else {
            m
        }
    }
}

/// `None` for no candidates, else the candidates.
pub open spec fn listed(candidates: Seq<TokenStatement>) -> Option<Seq<TokenStatement>> {
    if candidates.len() > 0 {
        Some(candidates)
    } else {
        None
    }
}

/// No definition ends in an optional token.
pub open spec fn definitions_wf(defs: Seq<(SyntaxKind, Seq<SyntaxToken>)>) -> bool {
    forall|d: int| 0 <= d < defs.len() && (#[trigger] defs[d]).1.len() > 0 ==> defs[d].1.last() is Required
}

/// The table that `defs` give: as many levels as the longest definition has
/// start tokens, and at level `i` each kind with its candidates.
pub open spec fn is_start_table(maps: Seq<Seq<(SyntaxKind, Seq<TokenStatement>)>>, defs: Seq<(SyntaxKind, Seq<SyntaxToken>)>) -> bool {
    &&& maps.len() == longest_definition(defs, defs.len() as int)
    &&& forall|i: int| 0 <= i < maps.len() ==> level_wf(#[trigger] maps[i])
    &&& forall|i: int, kind: SyntaxKind|
        0 <= i < maps.len() ==> #[trigger] maps_get(maps, i, kind) == listed(
            table_candidates(defs, i, kind, defs.len() as int),
        )
}

proof fn lemma_level_get(level: Seq<(SyntaxKind, Seq<TokenStatement>)>, j: int)
    requires
        level_wf(level),
        0 <= j < level.len(),
    ensures
        level_get(level, level[j].0) == Some(level[j].1),
{
    let k = level[j].0;
    assert(exists|x: int| 0 <= x < level.len() && (#[trigger] level[x]).0 == k);
    let c = choose|x: int| 0 <= x < level.len() && (#[trigger] level[x]).0 == k;
    assert(c == j);
}

/// The index of `kind` in a level, if it is listed.
fn level_index(level: &StartLevel, kind: SyntaxKind) -> (r: Option<usize>)
    ensures
        r matches Some(j) ==> j < level@.len() && level@[j as int].0 == kind,
        r is None ==> forall|j: int| 0 <= j < level@.len() ==> (#[trigger] level@[j]).0 != kind,
{
    let mut j: usize = 0;
    while j < level.len()
        invariant
            j <= level@.len(),
            forall|x: int| 0 <= x < j ==> (#[trigger] level@[x]).0 != kind,
        decreases level.len() - j,
    {
        if level[j].0 == kind {
            return Some(j);
        }
        j = j + 1;
    }
    None
}

/// Adds `candidate` to the end of the candidates of `kind`.
fn add_candidate(level: &mut StartLevel, kind: SyntaxKind, candidate: TokenStatement)
    requires
        level_wf(level_view(old(level)@)),
    ensures
        level_wf(level_view(final(level)@)),
        forall|k: SyntaxKind| #[trigger] level_get(level_view(final(level)@), k) == if k == kind {
            Some(
                match level_get(level_view(old(level)@), kind) {
                    Some(l) => l,
                    None => Seq::empty(),
                }.push(candidate),
            )
        } else {
            level_get(level_view(old(level)@), k)
        },
{
    let ghost old_view = level_view(level@);
    match level_index(level, kind) {
        Some(j) => {
            proof {
                lemma_level_get(old_view, j as int);
            }
            level[j].1.push(candidate);
            let ghost new_view = level_view(level@);
            proof {
                assert(new_view.len() == old_view.len());
                assert forall|x: int| 0 <= x < new_view.len() && x != j implies new_view[x] == old_view[x] by {}
                assert(new_view[j as int] == (kind, old_view[j as int].1.push(candidate)));
                assert forall|k: SyntaxKind| #[trigger] level_get(new_view, k) == if k == kind {
                    Some(
                        match level_get(old_view, kind) {
                            Some(l) => l,
                            None => Seq::empty(),
                        }.push(candidate),
                    )
                } else {
                    level_get(old_view, k)
                } by {
                    if k == kind {
                        lemma_level_get(new_view, j as int);
                    } else {
                        if exists|x: int| 0 <= x < old_view.len() && (#[trigger] old_view[x]).0 == k {
                            let x = choose|x: int| 0 <= x < old_view.len() && (#[trigger] old_view[x]).0 == k;
                            lemma_level_get(old_view, x);
                            lemma_level_get(new_view, x);
                        } else {
                            assert(!exists|x: int| 0 <= x < new_view.len() && (#[trigger] new_view[x]).0 == k);
                        }
                    }
                }
            }
        },
        None => {
            let list = vec![candidate];
            assert(list@ =~= seq![candidate]);
            level.push((kind, list));
            let ghost new_view = level_view(level@);
            proof {
                assert(new_view =~= old_view.push((kind, seq![candidate])));
                assert(level_get(old_view, kind) is None);
                assert forall|k: SyntaxKind| #[trigger] level_get(new_view, k) == if k == kind {
                    Some(
                        match level_get(old_view, kind) {
                            Some(l) => l,
                            None => Seq::empty(),
                        }.push(candidate),
                    )
                } else {
                    level_get(old_view, k)
                } by {
                    if k == kind {
                        lemma_level_get(new_view, old_view.len() as int);
                        assert(seq![candidate] =~= Seq::<TokenStatement>::empty().push(candidate));
                    } else {
                        if exists|x: int| 0 <= x < old_view.len() && (#[trigger] old_view[x]).0 == k {
                            let x = choose|x: int| 0 <= x < old_view.len() && (#[trigger] old_view[x]).0 == k;
                            lemma_level_get(old_view, x);
                            lemma_level_get(new_view, x);
                        } else {
                            assert(!exists|x: int| 0 <= x < new_view.len() && (#[trigger] new_view[x]).0 == k);
                        }
                    }
                }
            }
        },
    }
}

/// The view of a list of levels.
pub open spec fn levels_view(levels: Seq<StartLevel>) -> Seq<Seq<(SyntaxKind, Seq<TokenStatement>)>> {
    levels.map_values(|l: StartLevel| level_view(l@))
}

proof fn lemma_optionals_before(tokens: Seq<SyntaxToken>, j: int)
    requires
        0 <= j,
    ensures
        0 <= optionals_before(tokens, j) <= j,
    decreases j,
{
    if j > 0 {
        lemma_optionals_before(tokens, j - 1);
    }
}

proof fn lemma_definition_candidates_beyond(
    statement: SyntaxKind,
    tokens: Seq<SyntaxToken>,
    i: int,
    kind: SyntaxKind,
    n: int,
)
    requires
        n <= i,
    ensures
        definition_candidates(statement, tokens, i, kind, n) == Seq::<TokenStatement>::empty(),
    decreases n,
{
    if n > 0 {
        lemma_definition_candidates_beyond(statement, tokens, i, kind, n - 1);
        assert(definition_candidates(statement, tokens, i, kind, n) =~= Seq::<TokenStatement>::empty());
    }
}

proof fn lemma_table_candidates_beyond(defs: Seq<(SyntaxKind, Seq<SyntaxToken>)>, i: int, kind: SyntaxKind, n: int)
    requires
        longest_definition(defs, n) <= i,
        n <= defs.len(),
    ensures
        table_candidates(defs, i, kind, n) == Seq::<TokenStatement>::empty(),
    decreases n,
{
    if n > 0 {
        lemma_table_candidates_beyond(defs, i, kind, n - 1);
        lemma_definition_candidates_beyond(defs[n - 1].0, defs[n - 1].1, i, kind, defs[n - 1].1.len() as int);
        assert(table_candidates(defs, i, kind, n) =~= Seq::<TokenStatement>::empty());
    }
}

/// Builds the start table from the statement definitions.
#[verifier::rlimit(60)]
pub fn build_start_token_maps(defs: &Vec<StatementDefinition>) -> (r: StartTokenMaps)
    requires
        definitions_wf(definitions_view(defs@)),
    ensures
        is_start_table(r@, definitions_view(defs@)),
{
    let ghost dv = definitions_view(defs@);
    let mut levels: Vec<StartLevel> = Vec::new();
    let mut d: usize = 0;
    while d < defs.len()
        invariant
            dv == definitions_view(defs@),
            definitions_wf(dv),
            d <= defs.len(),
            levels@.len() == longest_definition(dv, d as int),
            forall|i: int| 0 <= i < levels@.len() ==> level_wf(#[trigger] levels_view(levels@)[i]),
            forall|i: int, kind: SyntaxKind|
                0 <= i < levels@.len() ==> #[trigger] maps_get(levels_view(levels@), i, kind) == listed(
                    table_candidates(dv, i, kind, d as int),
                ),
        decreases defs.len() - d,
    {
        let statement = defs[d].0;
        let tokens = &defs[d].1;
        let ghost tv = tokens@;
        assert(dv[d as int] == (statement, tv));
        let mut left_pull: usize = 0;
        let mut idx: usize = 0;
        while idx < tokens.len()
            invariant
                dv == definitions_view(defs@),
                definitions_wf(dv),
                d < defs.len(),
                dv[d as int] == (statement, tv),
                tv == tokens@,
                idx <= tokens@.len(),
                left_pull == optionals_before(tv, idx as int),
                levels@.len() == if longest_definition(dv, d as int) < idx {
                    idx as int
                } else {
                    longest_definition(dv, d as int)
                },
                forall|i: int| 0 <= i < levels@.len() ==> level_wf(#[trigger] levels_view(levels@)[i]),
                forall|i: int, kind: SyntaxKind|
                    0 <= i < levels@.len() ==> #[trigger] maps_get(levels_view(levels@), i, kind) == listed(
                        table_candidates(dv, i, kind, d as int) + definition_candidates(
                            statement,
                            tv,
                            i,
                            kind,
                            idx as int,
                        ),
                    ),
            decreases tokens@.len() - idx,
        {
            if levels.len() <= idx {
                let ghost before = levels@;
                levels.push(Vec::new());
                proof {
                    assert forall|i: int| 0 <= i < levels@.len() implies level_wf(#[trigger] levels_view(levels@)[i]) by {
                        if i < before.len() {
                            assert(levels_view(levels@)[i] == levels_view(before)[i]);
                        } else {
                            assert(levels_view(levels@)[i] =~= Seq::empty());
                        }
                    }
                    assert forall|i: int, kind: SyntaxKind|
                        0 <= i < levels@.len() implies #[trigger] maps_get(levels_view(levels@), i, kind) == listed(
                            table_candidates(dv, i, kind, d as int) + definition_candidates(
                                statement,
                                tv,
                                i,
                                kind,
                                idx as int,
                            ),
                        ) by {
                        if i < before.len() {
                            assert(levels_view(levels@)[i] == levels_view(before)[i]);
                            assert(maps_get(levels_view(levels@), i, kind) == maps_get(levels_view(before), i, kind));
                        } else {
                            assert(levels_view(levels@)[i] =~= Seq::empty());
                            lemma_table_candidates_beyond(dv, i, kind, d as int);
                            lemma_definition_candidates_beyond(statement, tv, i, kind, idx as int);
                            assert(table_candidates(dv, i, kind, d as int) + definition_candidates(
                                statement,
                                tv,
                                i,
                                kind,
                                idx as int,
                            ) =~= Seq::<TokenStatement>::empty());
                        }
                    }
                }
            }
            let is_last = idx == tokens.len() - 1;
            let (kind, candidate, optional) = match tokens[idx] {
                SyntaxToken::Required(t) => (
                    t,
                    if is_last {
                        TokenStatement::EoS(statement)
                    } else {
                        TokenStatement::Any(statement)
                    },
                    false,
                ),
                SyntaxToken::Optional(t) => (t, TokenStatement::Any(statement), true),
            };
            proof {
                lemma_optionals_before(tv, idx as int);
                if optional {
                    assert(!is_last);
                }
                assert(candidate == start_candidate(statement, tv, idx as int));
                assert(kind == tv[idx as int].token_kind());
            }
            let lo = idx - left_pull;
            let mut i = lo;
            while i <= idx
                invariant
                    dv == definitions_view(defs@),
                    definitions_wf(dv),
                    d < defs.len(),
                    tv == tokens@,
                    idx < tokens@.len(),
                    idx < tokens.len(),
                    lo <= i <= idx + 1,
                    levels@.len() > idx,
                    levels@.len() == if longest_definition(dv, d as int) < idx + 1 {
                        idx + 1
                    } else {
                        longest_definition(dv, d as int)
                    },
                    forall|l: int| 0 <= l < levels@.len() ==> level_wf(#[trigger] levels_view(levels@)[l]),
                    forall|l: int, k: SyntaxKind|
                        0 <= l < levels@.len() ==> #[trigger] maps_get(levels_view(levels@), l, k) == listed(
                            table_candidates(dv, l, k, d as int) + definition_candidates(
                                statement,
                                tv,
                                l,
                                k,
                                idx as int,
                            ) + if lo <= l < i && k == kind {
                                seq![candidate]
                            } else {
                                Seq::empty()
                            },
                        ),
                decreases idx + 1 - i,
            {
                let ghost before = levels@;
                assert(level_wf(levels_view(levels@)[i as int]));
                assert(levels_view(levels@)[i as int] == level_view(levels@[i as int]@));
                add_candidate(&mut levels[i], kind, candidate);
                proof {
                    assert forall|l: int| 0 <= l < levels@.len() implies level_wf(#[trigger] levels_view(levels@)[l]) by {
                        if l != i {
                            assert(levels_view(levels@)[l] == levels_view(before)[l]);
                        }
                    }
                    assert forall|l: int, k: SyntaxKind|
                        0 <= l < levels@.len() implies #[trigger] maps_get(levels_view(levels@), l, k) == listed(
                            table_candidates(dv, l, k, d as int) + definition_candidates(
                                statement,
                                tv,
                                l,
                                k,
                                idx as int,
                            ) + if lo <= l < i + 1 && k == kind {
                                seq![candidate]
                            } else {
                                Seq::empty()
                            },
                        ) by {
                        let base = table_candidates(dv, l, k, d as int) + definition_candidates(
                            statement,
                            tv,
                            l,
                            k,
                            idx as int,
                        );
                        if l != i {
                            assert(levels_view(levels@)[l] == levels_view(before)[l]);
                            assert(maps_get(levels_view(levels@), l, k) == maps_get(levels_view(before), l, k));
                        } else {
                            assert(maps_get(levels_view(before), l, k) == listed(base + Seq::empty()));
                            assert(base + Seq::empty() =~= base);
                            if k == kind {
                                assert(base + seq![candidate] =~= base.push(candidate));
                            }
                        }
                    }
                }
                i = i + 1;
            }
            proof {
                assert forall|l: int, k: SyntaxKind|
                    0 <= l < levels@.len() implies #[trigger] maps_get(levels_view(levels@), l, k) == listed(
                        table_candidates(dv, l, k, d as int) + definition_candidates(
                            statement,
                            tv,
                            l,
                            k,
                            idx + 1,
                        ),
                    ) by {
                    let a = table_candidates(dv, l, k, d as int);
                    let b = definition_candidates(statement, tv, l, k, idx as int);
                    let c = if lo <= l < idx + 1 && k == kind {
                        seq![candidate]
                    } else {
                        Seq::empty()
                    };
                    assert(reaches_level(tv, idx as int, l) == (lo <= l <= idx));
                    assert(definition_candidates(statement, tv, l, k, idx + 1) == b + c);
                    assert(a + b + c =~= a + (b + c));
                }
            }
            if optional {
                left_pull = left_pull + 1;
            }
            idx = idx + 1;
        }
        proof {
            assert forall|i: int, k: SyntaxKind|
                0 <= i < levels@.len() implies #[trigger] maps_get(levels_view(levels@), i, k) == listed(
                    table_candidates(dv, i, k, d + 1),
                ) by {
                assert(table_candidates(dv, i, k, d + 1) == table_candidates(dv, i, k, d as int)
                    + definition_candidates(statement, tv, i, k, tv.len() as int));
            }
        }
        d = d + 1;
    }
    let r = StartTokenMaps { levels };
    assert(r@ == levels_view(r.levels@));
    r
}

/// No definition among the first `n` ends in an optional token.
pub open spec fn ends_required(defs: Seq<(SyntaxKind, Seq<SyntaxToken>)>, n: int) -> bool
    decreases n,
{
    if n <= 0 {
        true
    } else {
        ends_required(defs, n - 1) && (defs[n - 1].1.len() > 0 ==> defs[n - 1].1.last() is Required)
    }
}

proof fn lemma_ends_required(defs: Seq<(SyntaxKind, Seq<SyntaxToken>)>, n: int)
    requires
        0 <= n <= defs.len(),
        ends_required(defs, n),
    ensures
        forall|d: int| 0 <= d < n && (#[trigger] defs[d]).1.len() > 0 ==> defs[d].1.last() is Required,
    decreases n,
{
    if n > 0 {
        lemma_ends_required(defs, n - 1);
    }
}

proof fn lemma_definition_candidates_negative(
    statement: SyntaxKind,
    tokens: Seq<SyntaxToken>,
    i: int,
    kind: SyntaxKind,
    n: int,
)
    requires
        i < 0,
    ensures
        definition_candidates(statement, tokens, i, kind, n) == Seq::<TokenStatement>::empty(),
    decreases n,
{
    if n > 0 {
        lemma_definition_candidates_negative(statement, tokens, i, kind, n - 1);
        lemma_optionals_before(tokens, n - 1);
        assert(definition_candidates(statement, tokens, i, kind, n) =~= Seq::<TokenStatement>::empty());
    }
}

proof fn lemma_table_candidates_negative(defs: Seq<(SyntaxKind, Seq<SyntaxToken>)>, i: int, kind: SyntaxKind, n: int)
    requires
        i < 0,
        n <= defs.len(),
    ensures
        table_candidates(defs, i, kind, n) == Seq::<TokenStatement>::empty(),
    decreases n,
{
    if n > 0 {
        lemma_table_candidates_negative(defs, i, kind, n - 1);
        lemma_definition_candidates_negative(defs[n - 1].0, defs[n - 1].1, i, kind, defs[n - 1].1.len() as int);
        assert(table_candidates(defs, i, kind, n) =~= Seq::<TokenStatement>::empty());
    }
}

/// The start table of the recognised statements.
pub fn statement_start_token_maps() -> (r: StartTokenMaps)
    ensures
        is_start_table(r@, statement_definitions()),
        maps_wf(r@),
        r.table() == start_table(),
{
    let defs = statement_start_definitions();
    proof {
        assert(ends_required(statement_definitions(), 100)) by {
            let defs = statement_definitions();
            assert(ends_required(defs, 0));
            assert(ends_required(defs, 1));
            assert(ends_required(defs, 2));
            assert(ends_required(defs, 3));
            assert(ends_required(defs, 4));
            assert(ends_required(defs, 5));
            assert(ends_required(defs, 6));
            assert(ends_required(defs, 7));
            assert(ends_required(defs, 8));
            assert(ends_required(defs, 9));
            assert(ends_required(defs, 10));
            assert(ends_required(defs, 11));
            assert(ends_required(defs, 12));
            assert(ends_required(defs, 13));
            assert(ends_required(defs, 14));
            assert(ends_required(defs, 15));
            assert(ends_required(defs, 16));
            assert(ends_required(defs, 17));
            assert(ends_required(defs, 18));
            assert(ends_required(defs, 19));
            assert(ends_required(defs, 20));
            assert(ends_required(defs, 21));
            assert(ends_required(defs, 22));
            assert(ends_required(defs, 23));
            assert(ends_required(defs, 24));
            assert(ends_required(defs, 25));
            assert(ends_required(defs, 26));
            assert(ends_required(defs, 27));
            assert(ends_required(defs, 28));
            assert(ends_required(defs, 29));
            assert(ends_required(defs, 30));
            assert(ends_required(defs, 31));
            assert(ends_required(defs, 32));
            assert(ends_required(defs, 33));
            assert(ends_required(defs, 34));
            assert(ends_required(defs, 35));
            assert(ends_required(defs, 36));
            assert(ends_required(defs, 37));
            assert(ends_required(defs, 38));
            assert(ends_required(defs, 39));
            assert(ends_required(defs, 40));
            assert(ends_required(defs, 41));
            assert(ends_required(defs, 42));
            assert(ends_required(defs, 43));
            assert(ends_required(defs, 44));
            assert(ends_required(defs, 45));
            assert(ends_required(defs, 46));
            assert(ends_required(defs, 47));
            assert(ends_required(defs, 48));
            assert(ends_required(defs, 49));
            assert(ends_required(defs, 50));
            assert(ends_required(defs, 51));
            assert(ends_required(defs, 52));
            assert(ends_required(defs, 53));
            assert(ends_required(defs, 54));
            assert(ends_required(defs, 55));
            assert(ends_required(defs, 56));
            assert(ends_required(defs, 57));
            assert(ends_required(defs, 58));
            assert(ends_required(defs, 59));
            assert(ends_required(defs, 60));
            assert(ends_required(defs, 61));
            assert(ends_required(defs, 62));
            assert(ends_required(defs, 63));
            assert(ends_required(defs, 64));
            assert(ends_required(defs, 65));
            assert(ends_required(defs, 66));
            assert(ends_required(defs, 67));
            assert(ends_required(defs, 68));
            assert(ends_required(defs, 69));
            assert(ends_required(defs, 70));
            assert(ends_required(defs, 71));
            assert(ends_required(defs, 72));
            assert(ends_required(defs, 73));
            assert(ends_required(defs, 74));
            assert(ends_required(defs, 75));
            assert(ends_required(defs, 76));
            assert(ends_required(defs, 77));
            assert(ends_required(defs, 78));
            assert(ends_required(defs, 79));
            assert(ends_required(defs, 80));
            assert(ends_required(defs, 81));
            assert(ends_required(defs, 82));
            assert(ends_required(defs, 83));
            assert(ends_required(defs, 84));
            assert(ends_required(defs, 85));
            assert(ends_required(defs, 86));
            assert(ends_required(defs, 87));
            assert(ends_required(defs, 88));
            assert(ends_required(defs, 89));
            assert(ends_required(defs, 90));
            assert(ends_required(defs, 91));
            assert(ends_required(defs, 92));
            assert(ends_required(defs, 93));
            assert(ends_required(defs, 94));
            assert(ends_required(defs, 95));
            assert(ends_required(defs, 96));
            assert(ends_required(defs, 97));
            assert(ends_required(defs, 98));
            assert(ends_required(defs, 99));
            assert(ends_required(defs, 100));
        }
        lemma_ends_required(statement_definitions(), 100);
    }
    let r = build_start_token_maps(&defs);
    proof {
        let d = statement_definitions();
        assert forall|i: int, kind: SyntaxKind| #[trigger] (r.table().get)(i, kind) == (start_table().get)(i, kind) by {
            if i < 0 {
                lemma_table_candidates_negative(d, i, kind, d.len() as int);
            } else if i >= r@.len() {
                lemma_table_candidates_beyond(d, i, kind, d.len() as int);
            } else {
                assert(maps_get(r@, i, kind) == listed(table_candidates(d, i, kind, d.len() as int)));
            }
        }
        assert(r.table().get =~= start_table().get);
    }
    r
}

/// The start table is well formed: each kind at most once per level, with
/// candidates.
pub open spec fn maps_wf(maps: Seq<Seq<(SyntaxKind, Seq<TokenStatement>)>>) -> bool {
    forall|i: int| 0 <= i < maps.len() ==> level_wf(#[trigger] maps[i])
}

impl StartTokenMaps {
    /// The candidates level `i` lists for `kind`, if it lists the kind.
    pub fn get(&self, i: usize, kind: SyntaxKind) -> (r: Option<&Vec<TokenStatement>>)
        requires
            i < self@.len(),
            maps_wf(self@),
        ensures
            r matches Some(l) ==> maps_get(self@, i as int, kind) == Some(l@),
            r is None ==> maps_get(self@, i as int, kind) is None,
    {
        let level = &self.levels[i];
        assert(self@[i as int] == level_view(level@));
        match level_index(level, kind) {
            Some(j) => {
                proof {
                    lemma_level_get(self@[i as int], j as int);
                }
                Some(&level[j].1)
            },
            None => {
                assert(!exists|j: int|
                    0 <= j < self@[i as int].len() && (#[trigger] self@[i as int][j]).0 == kind);
                None
            },
        }
    }
}

/// A start table as a function from a level and a token kind to the
/// candidates, with its number of levels.
pub ghost struct StartTable {
    pub levels: int,
    pub get: spec_fn(int, SyntaxKind) -> Option<Seq<TokenStatement>>,
}

/// The start table of the recognised statements.
pub open spec fn start_table() -> StartTable {
    let defs = statement_definitions();
    StartTable {
        levels: longest_definition(defs, defs.len() as int),
        get: |i: int, kind: SyntaxKind| listed(table_candidates(defs, i, kind, defs.len() as int)),
    }
}

impl StartTokenMaps {
    /// The table as a function; no kind is listed outside its levels.
    pub open spec fn table(&self) -> StartTable {
        StartTable {
            levels: self@.len() as int,
            get: |i: int, kind: SyntaxKind|
                if 0 <= i < self@.len() {
                    maps_get(self@, i, kind)
                } else {
                    None
                },
        }
    }
}

/// The kind the search for a statement start looks at in round `i`: the
/// current token's in the first round, after that the `i`-th token from here
/// that is not whitespace.
pub open spec fn lookahead_kind(tokens: Seq<TokenView>, eof: TokenView, pos: int, i: int) -> SyntaxKind {
    if i == 0 {
        kind_at(tokens, pos)
    } else {
        nth_non_whitespace(tokens, eof, pos, i).kind
    }
}

/// Whether a candidate for `kind` is among `options`.
pub open spec fn has_statement(options: Seq<TokenStatement>, kind: SyntaxKind) -> bool {
    exists|j: int| 0 <= j < options.len() && (#[trigger] options[j]).statement_kind() == kind
}

/// The candidates after a round that sees a token of `kind` at level `i`:
/// the candidates the level lists for the kind (in later rounds, only those
/// that were candidates before); when the level does not list the kind, the
/// complete candidates if there was more than one, else the candidates as
/// they were.
pub open spec fn narrowed(
    table: StartTable,
    i: int,
    kind: SyntaxKind,
    options: Seq<TokenStatement>,
) -> Seq<TokenStatement> {
    match (table.get)(i, kind) {
        Some(found) => if i == 0 {
            found
        } else {
            found.filter(|o: TokenStatement| has_statement(options, o.statement_kind()))
        },
        None => if options.len() > 1 {
            options.filter(|o: TokenStatement| o is EoS)
        } else {
            options
        },
    }
}

/// The search is over: no candidate is left, or one that is complete.
pub open spec fn is_settled(options: Seq<TokenStatement>) -> bool {
    options.len() == 0 || (options.len() == 1 && options[0] is EoS)
}

/// The candidates when the search goes on from round `i` with `options`: it
/// stops when it is settled or after the last level.
pub open spec fn candidates_from(
    table: StartTable,
    tokens: Seq<TokenView>,
    eof: TokenView,
    pos: int,
    i: int,
    options: Seq<TokenStatement>,
) -> Seq<TokenStatement>
    decreases table.levels - i,
{
    if i >= table.levels || i < 0 {
        options
    } else {
        let o = narrowed(table, i, lookahead_kind(tokens, eof, pos, i), options);
        if is_settled(o) {
            o
        } else {
            candidates_from(table, tokens, eof, pos, i + 1, o)
        }
    }
}

/// The statement that starts at the parser's position: `Some(None)` when
/// none does, `Some(Some(kind))` when one does, `None` when the start is
/// ambiguous.
pub open spec fn statement_start(
    table: StartTable,
    tokens: Seq<TokenView>,
    eof: TokenView,
    pos: int,
) -> Option<Option<SyntaxKind>> {
    let o = candidates_from(table, tokens, eof, pos, 0, Seq::empty());
    if o.len() == 0 {
        Some(None)
    } else if o.len() == 1 && o[0] is EoS {
        Some(Some(o[0].statement_kind()))
    } else {
        None
    }
}

/// Whether a candidate for `kind` is among `options`.
pub(crate) fn contains_statement(options: &Vec<TokenStatement>, kind: SyntaxKind) -> (r: bool)
    ensures
        r == has_statement(options@, kind),
{
    let mut j: usize = 0;
    while j < options.len()
        invariant
            j <= options@.len(),
            forall|x: int| 0 <= x < j ==> (#[trigger] options@[x]).statement_kind() != kind,
        decreases options.len() - j,
    {
        if options[j].kind() == kind {
            return true;
        }
        j = j + 1;
    }
    false
}

/// The candidates in `found` for a statement among `options`, in order.
fn keep_candidates_of(found: &Vec<TokenStatement>, options: &Vec<TokenStatement>) -> (r: Vec<TokenStatement>)
    ensures
        r@ == found@.filter(|o: TokenStatement| has_statement(options@, o.statement_kind())),
{
    let ghost pred = |o: TokenStatement| has_statement(options@, o.statement_kind());
    let mut r: Vec<TokenStatement> = Vec::new();
    let mut j: usize = 0;
    assert(found@.take(0) =~= Seq::<TokenStatement>::empty());
    proof {
        reveal(Seq::filter);
    }
    while j < found.len()
        invariant
            j <= found@.len(),
            pred == (|o: TokenStatement| has_statement(options@, o.statement_kind())),
            r@ == found@.take(j as int).filter(pred),
        decreases found.len() - j,
    {
        let c = found[j];
        proof {
            assert(found@.take(j + 1) =~= found@.take(j as int).push(c));
            found@.take(j as int).lemma_filter_push(c, pred);
        }
        if contains_statement(options, c.kind()) {
            r.push(c);
        }
        j = j + 1;
    }
    assert(found@.take(found@.len() as int) =~= found@);
    r
}

/// The complete candidates among `options`, in order.
fn keep_complete(options: &Vec<TokenStatement>) -> (r: Vec<TokenStatement>)
    ensures
        r@ == options@.filter(|o: TokenStatement| o is EoS),
{
    let ghost pred = |o: TokenStatement| o is EoS;
    let mut r: Vec<TokenStatement> = Vec::new();
    let mut j: usize = 0;
    assert(options@.take(0) =~= Seq::<TokenStatement>::empty());
    proof {
        reveal(Seq::filter);
    }
    while j < options.len()
        invariant
            j <= options@.len(),
            pred == (|o: TokenStatement| o is EoS),
            r@ == options@.take(j as int).filter(pred),
        decreases options.len() - j,
    {
        let c = options[j];
        proof {
            assert(options@.take(j + 1) =~= options@.take(j as int).push(c));
            options@.take(j as int).lemma_filter_push(c, pred);
        }
        if c.is_eos() {
            r.push(c);
        }
        j = j + 1;
    }
    assert(options@.take(options@.len() as int) =~= options@);
    r
}

/// A copy of the candidates.
fn copy_candidates(found: &Vec<TokenStatement>) -> (r: Vec<TokenStatement>)
    ensures
        r@ == found@,
{
    let mut r: Vec<TokenStatement> = Vec::new();
    let mut j: usize = 0;
    while j < found.len()
        invariant
            j <= found@.len(),
            r@ == found@.take(j as int),
        decreases found.len() - j,
    {
        r.push(found[j]);
        assert(found@.take(j + 1) =~= found@.take(j as int).push(found@[j as int]));
        j = j + 1;
    }
    assert(found@.take(found@.len() as int) =~= found@);
    r
}

/// The candidates the search for a statement start ends with.
fn settle_candidates(parser: &Parser, maps: &StartTokenMaps) -> (r: Vec<TokenStatement>)
    requires
        parser.wf(),
        maps_wf(maps@),
    ensures
        r@ == candidates_from(maps.table(), parser.views(), parser.eof_token@, parser.pos as int, 0, Seq::empty()),
{
    let mut options: Vec<TokenStatement> = Vec::new();
    let mut i: usize = 0;
    while i < maps.levels.len()
        invariant
            parser.wf(),
            maps_wf(maps@),
            maps@.len() == maps.levels@.len(),
            i <= maps@.len(),
            candidates_from(maps.table(), parser.views(), parser.eof_token@, parser.pos as int, 0, Seq::empty())
                == candidates_from(maps.table(), parser.views(), parser.eof_token@, parser.pos as int, i as int, options@),
        decreases maps.levels.len() - i,
    {
        let token = parser.nth(i, i != 0).kind;
        assert(token == lookahead_kind(parser.views(), parser.eof_token@, parser.pos as int, i as int));
        let next = match maps.get(i, token) {
            Some(found) => if i == 0 {
                copy_candidates(found)
            } else {
                keep_candidates_of(found, &options)
            },
            None => if options.len() > 1 {
                keep_complete(&options)
            } else {
                options
            },
        };
        options = next;
        if options.len() == 0 || (options.len() == 1 && options[0].is_eos()) {
            return options;
        }
        i = i + 1;
    }
    options
}

/// The statement that starts at the parser's position, if one does (see
/// [`statement_start`]).
pub fn is_at_stmt_start(parser: &mut Parser, maps: &StartTokenMaps) -> (r: Option<SyntaxKind>)
    requires
        old(parser).wf(),
        maps_wf(maps@),
        statement_start(maps.table(), old(parser).views(), old(parser).eof_token@, old(parser).pos as int) is Some,
    ensures
        *final(parser) == *old(parser),
        Some(r) == statement_start(maps.table(), old(parser).views(), old(parser).eof_token@, old(parser).pos as int),
{
    match statement_start_at(parser, maps) {
        Some(found) => found,
        None => {
            assert(false);
            None
        },
    }
}

/// The statement that starts at the parser's position (see
/// [`statement_start`]): `Some(None)` when none does, `None` when the start
/// is ambiguous.
pub fn statement_start_at(parser: &Parser, maps: &StartTokenMaps) -> (r: Option<Option<SyntaxKind>>)
    requires
        parser.wf(),
        maps_wf(maps@),
    ensures
        r == statement_start(maps.table(), parser.views(), parser.eof_token@, parser.pos as int),
{
    let options = settle_candidates(parser, maps);
    if options.len() == 0 {
        Some(None)
    } else if options.len() == 1 && options[0].is_eos() {
        Some(Some(options[0].kind()))
    } else {
        None
    }
}


/// None of the first `n` start tokens is of `kind`.
spec fn tokens_lack(tokens: Seq<SyntaxToken>, kind: SyntaxKind, n: int) -> bool
    decreases n,
{
    if n <= 0 {
        true
    } else {
        tokens_lack(tokens, kind, n - 1) && tokens[n - 1].token_kind() != kind
    }
}

/// Among the first `n` definitions, only definition `d0` may have a start
/// token of `kind`.
spec fn others_lack(defs: Seq<(SyntaxKind, Seq<SyntaxToken>)>, kind: SyntaxKind, d0: int, n: int) -> bool
    decreases n,
{
    if n <= 0 {
        true
    } else {
        others_lack(defs, kind, d0, n - 1) && (n - 1 == d0 || tokens_lack(defs[n - 1].1, kind, defs[n - 1].1.len() as int))
    }
}

proof fn lemma_tokens_lack_no_candidates(statement: SyntaxKind, tokens: Seq<SyntaxToken>, i: int, kind: SyntaxKind, n: int)
    requires
        tokens_lack(tokens, kind, n),
    ensures
        definition_candidates(statement, tokens, i, kind, n) == Seq::<TokenStatement>::empty(),
    decreases n,
{
    if n > 0 {
        lemma_tokens_lack_no_candidates(statement, tokens, i, kind, n - 1);
        assert(definition_candidates(statement, tokens, i, kind, n) =~= Seq::<TokenStatement>::empty());
    }
}

/// Where only definition `d0` has a start token of `kind`, the table lists
/// only its candidates for `kind`.
proof fn lemma_only_definition_lists(defs: Seq<(SyntaxKind, Seq<SyntaxToken>)>, i: int, kind: SyntaxKind, d0: int, n: int)
    requires
        0 <= n <= defs.len(),
        0 <= d0 < defs.len(),
        others_lack(defs, kind, d0, n),
    ensures
        table_candidates(defs, i, kind, n) == if n > d0 {
            definition_candidates(defs[d0].0, defs[d0].1, i, kind, defs[d0].1.len() as int)
        } else {
            Seq::<TokenStatement>::empty()
        },
    decreases n,
{
    if n > 0 {
        lemma_only_definition_lists(defs, i, kind, d0, n - 1);
        if n - 1 != d0 {
            lemma_tokens_lack_no_candidates(defs[n - 1].0, defs[n - 1].1, i, kind, defs[n - 1].1.len() as int);
        }
        assert(table_candidates(defs, i, kind, n) =~= table_candidates(defs, i, kind, n - 1) + definition_candidates(
            defs[n - 1].0,
            defs[n - 1].1,
            i,
            kind,
            defs[n - 1].1.len() as int,
        ));
    }
}

proof fn lemma_longest_definition(defs: Seq<(SyntaxKind, Seq<SyntaxToken>)>, d: int, n: int)
    requires
        0 <= d < n <= defs.len(),
    ensures
        longest_definition(defs, n) >= defs[d].1.len(),
    decreases n,
{
    if d < n - 1 {
        lemma_longest_definition(defs, d, n - 1);
    }
}

/// A `DELETE` followed, past any whitespace, by `FROM` starts a `DELETE`
/// statement, whatever tokens surround it.
pub proof fn lemma_delete_from_starts_a_delete(tokens: Seq<TokenView>, eof: TokenView, pos: int)
    requires
        kind_at(tokens, pos) == SyntaxKind::DeleteP,
        nth_non_whitespace(tokens, eof, pos, 1).kind == SyntaxKind::From,
    ensures
        statement_start(start_table(), tokens, eof, pos) == Some(Some(SyntaxKind::DeleteStmt)),
{
    let defs = statement_definitions();
    let table = start_table();
    assert(defs.len() == 100);
    assert(defs[1] == (
        SyntaxKind::DeleteStmt,
        seq![SyntaxToken::Required(SyntaxKind::DeleteP), SyntaxToken::Required(SyntaxKind::From)],
    ));
    let toks = defs[1].1;
    assert(others_lack(defs, SyntaxKind::DeleteP, 1, 100)) by {
        reveal_with_fuel(tokens_lack, 12);
        assert(others_lack(defs, SyntaxKind::DeleteP, 1, 0));
        assert(others_lack(defs, SyntaxKind::DeleteP, 1, 1));
        assert(others_lack(defs, SyntaxKind::DeleteP, 1, 2));
        assert(others_lack(defs, SyntaxKind::DeleteP, 1, 3));
        assert(others_lack(defs, SyntaxKind::DeleteP, 1, 4));
        assert(others_lack(defs, SyntaxKind::DeleteP, 1, 5));
        assert(others_lack(defs, SyntaxKind::DeleteP, 1, 6));
        assert(others_lack(defs, SyntaxKind::DeleteP, 1, 7));
        assert(others_lack(defs, SyntaxKind::DeleteP, 1, 8));
        assert(others_lack(defs, SyntaxKind::DeleteP, 1, 9));
        assert(others_lack(defs, SyntaxKind::DeleteP, 1, 10));
        assert(others_lack(defs, SyntaxKind::DeleteP, 1, 11));
        assert(others_lack(defs, SyntaxKind::DeleteP, 1, 12));
        assert(others_lack(defs, SyntaxKind::DeleteP, 1, 13));
        assert(others_lack(defs, SyntaxKind::DeleteP, 1, 14));
        assert(others_lack(defs, SyntaxKind::DeleteP, 1, 15));
        assert(others_lack(defs, SyntaxKind::DeleteP, 1, 16));
        assert(others_lack(defs, SyntaxKind::DeleteP, 1, 17));
        assert(others_lack(defs, SyntaxKind::DeleteP, 1, 18));
        assert(others_lack(defs, SyntaxKind::DeleteP, 1, 19));
        assert(others_lack(defs, SyntaxKind::DeleteP, 1, 20));
        assert(others_lack(defs, SyntaxKind::DeleteP, 1, 21));
        assert(others_lack(defs, SyntaxKind::DeleteP, 1, 22));
        assert(others_lack(defs, SyntaxKind::DeleteP, 1, 23));
        assert(others_lack(defs, SyntaxKind::DeleteP, 1, 24));
        assert(others_lack(defs, SyntaxKind::DeleteP, 1, 25));
        assert(others_lack(defs, SyntaxKind::DeleteP, 1, 26));
        assert(others_lack(defs, SyntaxKind::DeleteP, 1, 27));
        assert(others_lack(defs, SyntaxKind::DeleteP, 1, 28));
        assert(others_lack(defs, SyntaxKind::DeleteP, 1, 29));
        assert(others_lack(defs, SyntaxKind::DeleteP, 1, 30));
        assert(others_lack(defs, SyntaxKind::DeleteP, 1, 31));
        assert(others_lack(defs, SyntaxKind::DeleteP, 1, 32));
        assert(others_lack(defs, SyntaxKind::DeleteP, 1, 33));
        assert(others_lack(defs, SyntaxKind::DeleteP, 1, 34));
        assert(others_lack(defs, SyntaxKind::DeleteP, 1, 35));
        assert(others_lack(defs, SyntaxKind::DeleteP, 1, 36));
        assert(others_lack(defs, SyntaxKind::DeleteP, 1, 37));
        assert(others_lack(defs, SyntaxKind::DeleteP, 1, 38));
        assert(others_lack(defs, SyntaxKind::DeleteP, 1, 39));
        assert(others_lack(defs, SyntaxKind::DeleteP, 1, 40));
        assert(others_lack(defs, SyntaxKind::DeleteP, 1, 41));
        assert(others_lack(defs, SyntaxKind::DeleteP, 1, 42));
        assert(others_lack(defs, SyntaxKind::DeleteP, 1, 43));
        assert(others_lack(defs, SyntaxKind::DeleteP, 1, 44));
        assert(others_lack(defs, SyntaxKind::DeleteP, 1, 45));
        assert(others_lack(defs, SyntaxKind::DeleteP, 1, 46));
        assert(others_lack(defs, SyntaxKind::DeleteP, 1, 47));
        assert(others_lack(defs, SyntaxKind::DeleteP, 1, 48));
        assert(others_lack(defs, SyntaxKind::DeleteP, 1, 49));
        assert(others_lack(defs, SyntaxKind::DeleteP, 1, 50));
        assert(others_lack(defs, SyntaxKind::DeleteP, 1, 51));
        assert(others_lack(defs, SyntaxKind::DeleteP, 1, 52));
        assert(others_lack(defs, SyntaxKind::DeleteP, 1, 53));
        assert(others_lack(defs, SyntaxKind::DeleteP, 1, 54));
        assert(others_lack(defs, SyntaxKind::DeleteP, 1, 55));
        assert(others_lack(defs, SyntaxKind::DeleteP, 1, 56));
        assert(others_lack(defs, SyntaxKind::DeleteP, 1, 57));
        assert(others_lack(defs, SyntaxKind::DeleteP, 1, 58));
        assert(others_lack(defs, SyntaxKind::DeleteP, 1, 59));
        assert(others_lack(defs, SyntaxKind::DeleteP, 1, 60));
        assert(others_lack(defs, SyntaxKind::DeleteP, 1, 61));
        assert(others_lack(defs, SyntaxKind::DeleteP, 1, 62));
        assert(others_lack(defs, SyntaxKind::DeleteP, 1, 63));
        assert(others_lack(defs, SyntaxKind::DeleteP, 1, 64));
        assert(others_lack(defs, SyntaxKind::DeleteP, 1, 65));
        assert(others_lack(defs, SyntaxKind::DeleteP, 1, 66));
        assert(others_lack(defs, SyntaxKind::DeleteP, 1, 67));
        assert(others_lack(defs, SyntaxKind::DeleteP, 1, 68));
        assert(others_lack(defs, SyntaxKind::DeleteP, 1, 69));
        assert(others_lack(defs, SyntaxKind::DeleteP, 1, 70));
        assert(others_lack(defs, SyntaxKind::DeleteP, 1, 71));
        assert(others_lack(defs, SyntaxKind::DeleteP, 1, 72));
        assert(others_lack(defs, SyntaxKind::DeleteP, 1, 73));
        assert(others_lack(defs, SyntaxKind::DeleteP, 1, 74));
        assert(others_lack(defs, SyntaxKind::DeleteP, 1, 75));
        assert(others_lack(defs, SyntaxKind::DeleteP, 1, 76));
        assert(others_lack(defs, SyntaxKind::DeleteP, 1, 77));
        assert(others_lack(defs, SyntaxKind::DeleteP, 1, 78));
        assert(others_lack(defs, SyntaxKind::DeleteP, 1, 79));
        assert(others_lack(defs, SyntaxKind::DeleteP, 1, 80));
        assert(others_lack(defs, SyntaxKind::DeleteP, 1, 81));
        assert(others_lack(defs, SyntaxKind::DeleteP, 1, 82));
        assert(others_lack(defs, SyntaxKind::DeleteP, 1, 83));
        assert(others_lack(defs, SyntaxKind::DeleteP, 1, 84));
        assert(others_lack(defs, SyntaxKind::DeleteP, 1, 85));
        assert(others_lack(defs, SyntaxKind::DeleteP, 1, 86));
        assert(others_lack(defs, SyntaxKind::DeleteP, 1, 87));
        assert(others_lack(defs, SyntaxKind::DeleteP, 1, 88));
        assert(others_lack(defs, SyntaxKind::DeleteP, 1, 89));
        assert(others_lack(defs, SyntaxKind::DeleteP, 1, 90));
        assert(others_lack(defs, SyntaxKind::DeleteP, 1, 91));
        assert(others_lack(defs, SyntaxKind::DeleteP, 1, 92));
        assert(others_lack(defs, SyntaxKind::DeleteP, 1, 93));
        assert(others_lack(defs, SyntaxKind::DeleteP, 1, 94));
        assert(others_lack(defs, SyntaxKind::DeleteP, 1, 95));
        assert(others_lack(defs, SyntaxKind::DeleteP, 1, 96));
        assert(others_lack(defs, SyntaxKind::DeleteP, 1, 97));
        assert(others_lack(defs, SyntaxKind::DeleteP, 1, 98));
        assert(others_lack(defs, SyntaxKind::DeleteP, 1, 99));
        assert(others_lack(defs, SyntaxKind::DeleteP, 1, 100));
    }
    lemma_longest_definition(defs, 1, 100);
    // Round 0: the `DELETE` token.
    lemma_only_definition_lists(defs, 0, SyntaxKind::DeleteP, 1, 100);
    assert(optionals_before(toks, 0) == 0);
    assert(optionals_before(toks, 1) == 0);
    assert(definition_candidates(SyntaxKind::DeleteStmt, toks, 0, SyntaxKind::DeleteP, 2) =~= seq![
        TokenStatement::Any(SyntaxKind::DeleteStmt),
    ]) by {
        reveal_with_fuel(definition_candidates, 3);
    }
    let o0 = seq![TokenStatement::Any(SyntaxKind::DeleteStmt)];
    assert(lookahead_kind(tokens, eof, pos, 0) == SyntaxKind::DeleteP);
    assert(narrowed(table, 0, SyntaxKind::DeleteP, Seq::empty()) == o0);
    assert(!is_settled(o0));
    // Round 1: the `FROM` token.
    assert(others_lack(defs, SyntaxKind::From, 1, 100)) by {
        reveal_with_fuel(tokens_lack, 12);
        assert(others_lack(defs, SyntaxKind::From, 1, 0));
        assert(others_lack(defs, SyntaxKind::From, 1, 1));
        assert(others_lack(defs, SyntaxKind::From, 1, 2));
        assert(others_lack(defs, SyntaxKind::From, 1, 3));
        assert(others_lack(defs, SyntaxKind::From, 1, 4));
        assert(others_lack(defs, SyntaxKind::From, 1, 5));
        assert(others_lack(defs, SyntaxKind::From, 1, 6));
        assert(others_lack(defs, SyntaxKind::From, 1, 7));
        assert(others_lack(defs, SyntaxKind::From, 1, 8));
        assert(others_lack(defs, SyntaxKind::From, 1, 9));
        assert(others_lack(defs, SyntaxKind::From, 1, 10));
        assert(others_lack(defs, SyntaxKind::From, 1, 11));
        assert(others_lack(defs, SyntaxKind::From, 1, 12));
        assert(others_lack(defs, SyntaxKind::From, 1, 13));
        assert(others_lack(defs, SyntaxKind::From, 1, 14));
        assert(others_lack(defs, SyntaxKind::From, 1, 15));
        assert(others_lack(defs, SyntaxKind::From, 1, 16));
        assert(others_lack(defs, SyntaxKind::From, 1, 17));
        assert(others_lack(defs, SyntaxKind::From, 1, 18));
        assert(others_lack(defs, SyntaxKind::From, 1, 19));
        assert(others_lack(defs, SyntaxKind::From, 1, 20));
        assert(others_lack(defs, SyntaxKind::From, 1, 21));
        assert(others_lack(defs, SyntaxKind::From, 1, 22));
        assert(others_lack(defs, SyntaxKind::From, 1, 23));
        assert(others_lack(defs, SyntaxKind::From, 1, 24));
        assert(others_lack(defs, SyntaxKind::From, 1, 25));
        assert(others_lack(defs, SyntaxKind::From, 1, 26));
        assert(others_lack(defs, SyntaxKind::From, 1, 27));
        assert(others_lack(defs, SyntaxKind::From, 1, 28));
        assert(others_lack(defs, SyntaxKind::From, 1, 29));
        assert(others_lack(defs, SyntaxKind::From, 1, 30));
        assert(others_lack(defs, SyntaxKind::From, 1, 31));
        assert(others_lack(defs, SyntaxKind::From, 1, 32));
        assert(others_lack(defs, SyntaxKind::From, 1, 33));
        assert(others_lack(defs, SyntaxKind::From, 1, 34));
        assert(others_lack(defs, SyntaxKind::From, 1, 35));
        assert(others_lack(defs, SyntaxKind::From, 1, 36));
        assert(others_lack(defs, SyntaxKind::From, 1, 37));
        assert(others_lack(defs, SyntaxKind::From, 1, 38));
        assert(others_lack(defs, SyntaxKind::From, 1, 39));
        assert(others_lack(defs, SyntaxKind::From, 1, 40));
        assert(others_lack(defs, SyntaxKind::From, 1, 41));
        assert(others_lack(defs, SyntaxKind::From, 1, 42));
        assert(others_lack(defs, SyntaxKind::From, 1, 43));
        assert(others_lack(defs, SyntaxKind::From, 1, 44));
        assert(others_lack(defs, SyntaxKind::From, 1, 45));
        assert(others_lack(defs, SyntaxKind::From, 1, 46));
        assert(others_lack(defs, SyntaxKind::From, 1, 47));
        assert(others_lack(defs, SyntaxKind::From, 1, 48));
        assert(others_lack(defs, SyntaxKind::From, 1, 49));
        assert(others_lack(defs, SyntaxKind::From, 1, 50));
        assert(others_lack(defs, SyntaxKind::From, 1, 51));
        assert(others_lack(defs, SyntaxKind::From, 1, 52));
        assert(others_lack(defs, SyntaxKind::From, 1, 53));
        assert(others_lack(defs, SyntaxKind::From, 1, 54));
        assert(others_lack(defs, SyntaxKind::From, 1, 55));
        assert(others_lack(defs, SyntaxKind::From, 1, 56));
        assert(others_lack(defs, SyntaxKind::From, 1, 57));
        assert(others_lack(defs, SyntaxKind::From, 1, 58));
        assert(others_lack(defs, SyntaxKind::From, 1, 59));
        assert(others_lack(defs, SyntaxKind::From, 1, 60));
        assert(others_lack(defs, SyntaxKind::From, 1, 61));
        assert(others_lack(defs, SyntaxKind::From, 1, 62));
        assert(others_lack(defs, SyntaxKind::From, 1, 63));
        assert(others_lack(defs, SyntaxKind::From, 1, 64));
        assert(others_lack(defs, SyntaxKind::From, 1, 65));
        assert(others_lack(defs, SyntaxKind::From, 1, 66));
        assert(others_lack(defs, SyntaxKind::From, 1, 67));
        assert(others_lack(defs, SyntaxKind::From, 1, 68));
        assert(others_lack(defs, SyntaxKind::From, 1, 69));
        assert(others_lack(defs, SyntaxKind::From, 1, 70));
        assert(others_lack(defs, SyntaxKind::From, 1, 71));
        assert(others_lack(defs, SyntaxKind::From, 1, 72));
        assert(others_lack(defs, SyntaxKind::From, 1, 73));
        assert(others_lack(defs, SyntaxKind::From, 1, 74));
        assert(others_lack(defs, SyntaxKind::From, 1, 75));
        assert(others_lack(defs, SyntaxKind::From, 1, 76));
        assert(others_lack(defs, SyntaxKind::From, 1, 77));
        assert(others_lack(defs, SyntaxKind::From, 1, 78));
        assert(others_lack(defs, SyntaxKind::From, 1, 79));
        assert(others_lack(defs, SyntaxKind::From, 1, 80));
        assert(others_lack(defs, SyntaxKind::From, 1, 81));
        assert(others_lack(defs, SyntaxKind::From, 1, 82));
        assert(others_lack(defs, SyntaxKind::From, 1, 83));
        assert(others_lack(defs, SyntaxKind::From, 1, 84));
        assert(others_lack(defs, SyntaxKind::From, 1, 85));
        assert(others_lack(defs, SyntaxKind::From, 1, 86));
        assert(others_lack(defs, SyntaxKind::From, 1, 87));
        assert(others_lack(defs, SyntaxKind::From, 1, 88));
        assert(others_lack(defs, SyntaxKind::From, 1, 89));
        assert(others_lack(defs, SyntaxKind::From, 1, 90));
        assert(others_lack(defs, SyntaxKind::From, 1, 91));
        assert(others_lack(defs, SyntaxKind::From, 1, 92));
        assert(others_lack(defs, SyntaxKind::From, 1, 93));
        assert(others_lack(defs, SyntaxKind::From, 1, 94));
        assert(others_lack(defs, SyntaxKind::From, 1, 95));
        assert(others_lack(defs, SyntaxKind::From, 1, 96));
        assert(others_lack(defs, SyntaxKind::From, 1, 97));
        assert(others_lack(defs, SyntaxKind::From, 1, 98));
        assert(others_lack(defs, SyntaxKind::From, 1, 99));
        assert(others_lack(defs, SyntaxKind::From, 1, 100));
    }
    lemma_only_definition_lists(defs, 1, SyntaxKind::From, 1, 100);
    let c1 = definition_candidates(SyntaxKind::DeleteStmt, toks, 1, SyntaxKind::From, 2);
    assert(c1 =~= seq![TokenStatement::EoS(SyntaxKind::DeleteStmt)]) by {
        reveal_with_fuel(definition_candidates, 3);
    }
    let p = |o: TokenStatement| has_statement(o0, o.statement_kind());
    assert(p(TokenStatement::EoS(SyntaxKind::DeleteStmt))) by {
        assert(o0[0].statement_kind() == SyntaxKind::DeleteStmt);
    }
    assert(c1.filter(p) =~= c1) by {
        reveal_with_fuel(Seq::filter, 2);
        assert(c1.drop_last() =~= Seq::<TokenStatement>::empty());
    }
    assert(lookahead_kind(tokens, eof, pos, 1) == SyntaxKind::From);
    let o1 = narrowed(table, 1, SyntaxKind::From, o0);
    assert(o1 == seq![TokenStatement::EoS(SyntaxKind::DeleteStmt)]);
    assert(is_settled(o1));
    assert(candidates_from(table, tokens, eof, pos, 1, o0) == o1);
    assert(candidates_from(table, tokens, eof, pos, 0, Seq::empty()) == o1);
}

} // verus!
