//! The closed enumeration of semantic message categories, and the two peer
//! roles a message can originate from.

use vstd::prelude::*;

use crate::text::str_eq;

verus! {

/// The protocol-defined semantic grouping of a message, independent of its
/// direction. A message whose category cannot be determined is reported as
/// `None` ("uncategorized") rather than with a variant of its own.
#[derive(Clone, Copy, Debug, Hash, PartialEq, Eq, Structural)]
pub enum MessageKind {
    Lifecycle,
    TextDocumentSynchronization,
    NotebookDocumentSynchronization,
    WorkspaceSynchronization,
    Workspace,
    Telemetry,
    Declaration,
    Definition,
    TypeDefinition,
    Implementation,
    References,
    CallHierarchy,
    TypeHierarchy,
    DocumentHighlight,
    DocumentLink,
    Hover,
    CodeLens,
    FoldingRange,
    Selection,
    Symbol,
    SemanticTokens,
    InlayHint,
    InlineValue,
    Moniker,
    Completion,
    Diagnostic,
    SignatureHelp,
    CodeAction,
    DocumentColor,
    Formatting,
    Rename,
    LinkedEditingRange,
    ExecuteCommand,
}

/// Which of the two communicating peers produced a message. Absence
/// (`Option::None` at the use sites) means the origin cannot be determined.
#[derive(Clone, Copy, Debug, Hash, PartialEq, Eq, Structural)]
pub enum MessageSource {
    Client,
    Server,
}

impl MessageSource {
    /// The opposite peer.
    pub fn other(&self) -> (r: Self)
        ensures
            r == self.spec_other(),
    {
        match self {
            MessageSource::Client => MessageSource::Server,
            MessageSource::Server => MessageSource::Client,
        }
    }

    pub open spec fn spec_other(self) -> Self {
        match self {
            MessageSource::Client => MessageSource::Server,
            MessageSource::Server => MessageSource::Client,
        }
    }
}

/// Swapping peers twice gives back the original peer, so direction
/// inversion (applied to responses and progress notifications) is an
/// involution.
pub proof fn lemma_other_involutive(s: MessageSource)
    ensures
        s.spec_other().spec_other() == s,
{
}

pub open spec fn spec_all_kinds() -> Seq<MessageKind> {
    seq![
        MessageKind::Lifecycle,
        MessageKind::TextDocumentSynchronization,
        MessageKind::NotebookDocumentSynchronization,
        MessageKind::WorkspaceSynchronization,
        MessageKind::Workspace,
        MessageKind::Telemetry,
        MessageKind::Declaration,
        MessageKind::Definition,
        MessageKind::TypeDefinition,
        MessageKind::Implementation,
        MessageKind::References,
        MessageKind::CallHierarchy,
        MessageKind::TypeHierarchy,
        MessageKind::DocumentHighlight,
        MessageKind::DocumentLink,
        MessageKind::Hover,
        MessageKind::CodeLens,
        MessageKind::FoldingRange,
        MessageKind::Selection,
        MessageKind::Symbol,
        MessageKind::SemanticTokens,
        MessageKind::InlayHint,
        MessageKind::InlineValue,
        MessageKind::Moniker,
        MessageKind::Completion,
        MessageKind::Diagnostic,
        MessageKind::SignatureHelp,
        MessageKind::CodeAction,
        MessageKind::DocumentColor,
        MessageKind::Formatting,
        MessageKind::Rename,
        MessageKind::LinkedEditingRange,
        MessageKind::ExecuteCommand,
    ]
}

/// The display name of each category, as shown in the filtering form.
pub open spec fn spec_kind_name(k: MessageKind) -> Seq<char> {
    match k {
        MessageKind::Lifecycle => "life cycle"@,
        MessageKind::TextDocumentSynchronization => "document synchronization"@,
        MessageKind::NotebookDocumentSynchronization => "notebook synchronization"@,
        MessageKind::WorkspaceSynchronization => "workspace synchronization"@,
        MessageKind::Workspace => "workspace"@,
        MessageKind::Telemetry => "telemetry"@,
        MessageKind::Declaration => "declaration"@,
        MessageKind::Definition => "definition"@,
        MessageKind::TypeDefinition => "type definition"@,
        MessageKind::Implementation => "implementation"@,
        MessageKind::References => "references"@,
        MessageKind::CallHierarchy => "call hierarchy"@,
        MessageKind::TypeHierarchy => "type hierarchy"@,
        MessageKind::DocumentHighlight => "document highlight"@,
        MessageKind::DocumentLink => "document link"@,
        MessageKind::Hover => "hover"@,
        MessageKind::CodeLens => "code lens"@,
        MessageKind::FoldingRange => "folding range"@,
        MessageKind::Selection => "selection"@,
        MessageKind::Symbol => "symbol"@,
        MessageKind::SemanticTokens => "semantic tokens"@,
        MessageKind::InlayHint => "inlay hint"@,
        MessageKind::InlineValue => "inline value"@,
        MessageKind::Moniker => "moniker"@,
        MessageKind::Completion => "completion"@,
        MessageKind::Diagnostic => "diagnostic"@,
        MessageKind::SignatureHelp => "signature help"@,
        MessageKind::CodeAction => "code action"@,
        MessageKind::DocumentColor => "document color"@,
        MessageKind::Formatting => "formatting"@,
        MessageKind::Rename => "rename"@,
        MessageKind::LinkedEditingRange => "linked editing range"@,
        MessageKind::ExecuteCommand => "execute command"@,
    }
}

/// The key under which each category appears in a filtering query string:
/// the display name with underscores in place of spaces.
pub open spec fn spec_parse_kind(s: Seq<char>) -> Option<MessageKind> {
    if s == "life_cycle"@ {
        Some(MessageKind::Lifecycle)
    } else if s == "document_synchronization"@ {
        Some(MessageKind::TextDocumentSynchronization)
    } else if s == "notebook_synchronization"@ {
        Some(MessageKind::NotebookDocumentSynchronization)
    } else if s == "workspace_synchronization"@ {
        Some(MessageKind::WorkspaceSynchronization)
    } else if s == "workspace"@ {
        Some(MessageKind::Workspace)
    } else if s == "telemetry"@ {
        Some(MessageKind::Telemetry)
    } else if s == "declaration"@ {
        Some(MessageKind::Declaration)
    } else if s == "definition"@ {
        Some(MessageKind::Definition)
    } else if s == "type_definition"@ {
        Some(MessageKind::TypeDefinition)
    } else if s == "implementation"@ {
        Some(MessageKind::Implementation)
    } else if s == "references"@ {
        Some(MessageKind::References)
    } else if s == "call_hierarchy"@ {
        Some(MessageKind::CallHierarchy)
    } else if s == "type_hierarchy"@ {
        Some(MessageKind::TypeHierarchy)
    } else if s == "document_highlight"@ {
        Some(MessageKind::DocumentHighlight)
    } else if s == "document_link"@ {
        Some(MessageKind::DocumentLink)
    } else if s == "hover"@ {
        Some(MessageKind::Hover)
    } else if s == "code_lens"@ {
        Some(MessageKind::CodeLens)
    } else if s == "folding_range"@ {
        Some(MessageKind::FoldingRange)
    } else if s == "selection"@ {
        Some(MessageKind::Selection)
    } else if s == "symbol"@ {
        Some(MessageKind::Symbol)
    } else if s == "semantic_tokens"@ {
        Some(MessageKind::SemanticTokens)
    } else if s == "inlay_hint"@ {
        Some(MessageKind::InlayHint)
    } else if s == "inline_value"@ {
        Some(MessageKind::InlineValue)
    } else if s == "moniker"@ {
        Some(MessageKind::Moniker)
    } else if s == "completion"@ {
        Some(MessageKind::Completion)
    } else if s == "diagnostic"@ {
        Some(MessageKind::Diagnostic)
    } else if s == "signature_help"@ {
        Some(MessageKind::SignatureHelp)
    } else if s == "code_action"@ {
        Some(MessageKind::CodeAction)
    } else if s == "document_color"@ {
        Some(MessageKind::DocumentColor)
    } else if s == "formatting"@ {
        Some(MessageKind::Formatting)
    } else if s == "rename"@ {
        Some(MessageKind::Rename)
    } else if s == "linked_editing_range"@ {
        Some(MessageKind::LinkedEditingRange)
    } else if s == "execute_command"@ {
        Some(MessageKind::ExecuteCommand)
    } else {
        None
    }
}

impl MessageKind {
    /// Every category, in the order the filtering form lists them.
    pub fn all() -> (r: Vec<MessageKind>)
        ensures
            r@ == spec_all_kinds(),
    {
        let r = vec![
            MessageKind::Lifecycle,
            MessageKind::TextDocumentSynchronization,
            MessageKind::NotebookDocumentSynchronization,
            MessageKind::WorkspaceSynchronization,
            MessageKind::Workspace,
            MessageKind::Telemetry,
            MessageKind::Declaration,
            MessageKind::Definition,
            MessageKind::TypeDefinition,
            MessageKind::Implementation,
            MessageKind::References,
            MessageKind::CallHierarchy,
            MessageKind::TypeHierarchy,
            MessageKind::DocumentHighlight,
            MessageKind::DocumentLink,
            MessageKind::Hover,
            MessageKind::CodeLens,
            MessageKind::FoldingRange,
            MessageKind::Selection,
            MessageKind::Symbol,
            MessageKind::SemanticTokens,
            MessageKind::InlayHint,
            MessageKind::InlineValue,
            MessageKind::Moniker,
            MessageKind::Completion,
            MessageKind::Diagnostic,
            MessageKind::SignatureHelp,
            MessageKind::CodeAction,
            MessageKind::DocumentColor,
            MessageKind::Formatting,
            MessageKind::Rename,
            MessageKind::LinkedEditingRange,
            MessageKind::ExecuteCommand,
        ];
        proof {
            assert(r@ =~= spec_all_kinds());
        }
        r
    }

    /// The category's display name.
    pub fn as_str(&self) -> (r: &'static str)
        ensures
            r@ == spec_kind_name(*self),
    {
        match self {
            MessageKind::Lifecycle => "life cycle",
            MessageKind::TextDocumentSynchronization => "document synchronization",
            MessageKind::NotebookDocumentSynchronization => "notebook synchronization",
            MessageKind::WorkspaceSynchronization => "workspace synchronization",
            MessageKind::Workspace => "workspace",
            MessageKind::Telemetry => "telemetry",
            MessageKind::Declaration => "declaration",
            MessageKind::Definition => "definition",
            MessageKind::TypeDefinition => "type definition",
            MessageKind::Implementation => "implementation",
            MessageKind::References => "references",
            MessageKind::CallHierarchy => "call hierarchy",
            MessageKind::TypeHierarchy => "type hierarchy",
            MessageKind::DocumentHighlight => "document highlight",
            MessageKind::DocumentLink => "document link",
            MessageKind::Hover => "hover",
            MessageKind::CodeLens => "code lens",
            MessageKind::FoldingRange => "folding range",
            MessageKind::Selection => "selection",
            MessageKind::Symbol => "symbol",
            MessageKind::SemanticTokens => "semantic tokens",
            MessageKind::InlayHint => "inlay hint",
            MessageKind::InlineValue => "inline value",
            MessageKind::Moniker => "moniker",
            MessageKind::Completion => "completion",
            MessageKind::Diagnostic => "diagnostic",
            MessageKind::SignatureHelp => "signature help",
            MessageKind::CodeAction => "code action",
            MessageKind::DocumentColor => "document color",
            MessageKind::Formatting => "formatting",
            MessageKind::Rename => "rename",
            MessageKind::LinkedEditingRange => "linked editing range",
            MessageKind::ExecuteCommand => "execute command",
        }
    }

    /// Parses a filtering key back into a category.
    pub fn try_parse_str(str: &str) -> (r: Option<MessageKind>)
        ensures
            r == spec_parse_kind(str@),
    {
        if str_eq(str, "life_cycle") {
            Some(MessageKind::Lifecycle)
        } else if str_eq(str, "document_synchronization") {
            Some(MessageKind::TextDocumentSynchronization)
        } else if str_eq(str, "notebook_synchronization") {
            Some(MessageKind::NotebookDocumentSynchronization)
        } else if str_eq(str, "workspace_synchronization") {
            Some(MessageKind::WorkspaceSynchronization)
        } else if str_eq(str, "workspace") {
            Some(MessageKind::Workspace)
        } else if str_eq(str, "telemetry") {
            Some(MessageKind::Telemetry)
        } else if str_eq(str, "declaration") {
            Some(MessageKind::Declaration)
        } else if str_eq(str, "definition") {
            Some(MessageKind::Definition)
        } else if str_eq(str, "type_definition") {
            Some(MessageKind::TypeDefinition)
        } else if str_eq(str, "implementation") {
            Some(MessageKind::Implementation)
        } else if str_eq(str, "references") {
            Some(MessageKind::References)
        } else if str_eq(str, "call_hierarchy") {
            Some(MessageKind::CallHierarchy)
        } else if str_eq(str, "type_hierarchy") {
            Some(MessageKind::TypeHierarchy)
        } else if str_eq(str, "document_highlight") {
            Some(MessageKind::DocumentHighlight)
        } else if str_eq(str, "document_link") {
            Some(MessageKind::DocumentLink)
        } else if str_eq(str, "hover") {
            Some(MessageKind::Hover)
        } else if str_eq(str, "code_lens") {
            Some(MessageKind::CodeLens)
        } else if str_eq(str, "folding_range") {
            Some(MessageKind::FoldingRange)
        } else if str_eq(str, "selection") {
            Some(MessageKind::Selection)
        } else if str_eq(str, "symbol") {
            Some(MessageKind::Symbol)
        } else if str_eq(str, "semantic_tokens") {
            Some(MessageKind::SemanticTokens)
        } else if str_eq(str, "inlay_hint") {
            Some(MessageKind::InlayHint)
        } else if str_eq(str, "inline_value") {
            Some(MessageKind::InlineValue)
        } else if str_eq(str, "moniker") {
            Some(MessageKind::Moniker)
        } else if str_eq(str, "completion") {
            Some(MessageKind::Completion)
        } else if str_eq(str, "diagnostic") {
            Some(MessageKind::Diagnostic)
        } else if str_eq(str, "signature_help") {
            Some(MessageKind::SignatureHelp)
        } else if str_eq(str, "code_action") {
            Some(MessageKind::CodeAction)
        } else if str_eq(str, "document_color") {
            Some(MessageKind::DocumentColor)
        } else if str_eq(str, "formatting") {
            Some(MessageKind::Formatting)
        } else if str_eq(str, "rename") {
            Some(MessageKind::Rename)
        } else if str_eq(str, "linked_editing_range") {
            Some(MessageKind::LinkedEditingRange)
        } else if str_eq(str, "execute_command") {
            Some(MessageKind::ExecuteCommand)
        } else {
            None
        }
    }
}

} // verus!
