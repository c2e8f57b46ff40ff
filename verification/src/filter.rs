//! Filtering of a session view by message category: the query parameters a
//! viewer sends, and the allow-list of categories they denote.

use vstd::prelude::*;

use crate::classify::{classify, spec_classify};
use crate::conversation::Conversation;
use crate::kind::MessageKind;

verus! {

/// A set of optional categories (`None` standing for "uncategorized"),
/// with one member flag per category.
#[derive(Clone, Copy, PartialEq, Eq, Structural)]
pub struct KindSet {
    pub life_cycle: bool,
    pub document_synchronization: bool,
    pub notebook_synchronization: bool,
    pub workspace_synchronization: bool,
    pub workspace: bool,
    pub telemetry: bool,
    pub declaration: bool,
    pub definition: bool,
    pub type_definition: bool,
    pub implementation: bool,
    pub references: bool,
    pub call_hierarchy: bool,
    pub type_hierarchy: bool,
    pub document_highlight: bool,
    pub document_link: bool,
    pub hover: bool,
    pub code_lens: bool,
    pub folding_range: bool,
    pub selection: bool,
    pub symbol: bool,
    pub semantic_tokens: bool,
    pub inlay_hint: bool,
    pub inline_value: bool,
    pub moniker: bool,
    pub completion: bool,
    pub diagnostic: bool,
    pub signature_help: bool,
    pub code_action: bool,
    pub document_color: bool,
    pub formatting: bool,
    pub rename: bool,
    pub linked_editing_range: bool,
    pub execute_command: bool,
    pub uncategorized: bool,
}

impl KindSet {
    pub open spec fn spec_contains(self, o: Option<MessageKind>) -> bool {
        match o {
            None => self.uncategorized,
            Some(MessageKind::Lifecycle) => self.life_cycle,
            Some(MessageKind::TextDocumentSynchronization) => self.document_synchronization,
            Some(MessageKind::NotebookDocumentSynchronization) => self.notebook_synchronization,
            Some(MessageKind::WorkspaceSynchronization) => self.workspace_synchronization,
            Some(MessageKind::Workspace) => self.workspace,
            Some(MessageKind::Telemetry) => self.telemetry,
            Some(MessageKind::Declaration) => self.declaration,
            Some(MessageKind::Definition) => self.definition,
            Some(MessageKind::TypeDefinition) => self.type_definition,
            Some(MessageKind::Implementation) => self.implementation,
            Some(MessageKind::References) => self.references,
            Some(MessageKind::CallHierarchy) => self.call_hierarchy,
            Some(MessageKind::TypeHierarchy) => self.type_hierarchy,
            Some(MessageKind::DocumentHighlight) => self.document_highlight,
            Some(MessageKind::DocumentLink) => self.document_link,
            Some(MessageKind::Hover) => self.hover,
            Some(MessageKind::CodeLens) => self.code_lens,
            Some(MessageKind::FoldingRange) => self.folding_range,
            Some(MessageKind::Selection) => self.selection,
            Some(MessageKind::Symbol) => self.symbol,
            Some(MessageKind::SemanticTokens) => self.semantic_tokens,
            Some(MessageKind::InlayHint) => self.inlay_hint,
            Some(MessageKind::InlineValue) => self.inline_value,
            Some(MessageKind::Moniker) => self.moniker,
            Some(MessageKind::Completion) => self.completion,
            Some(MessageKind::Diagnostic) => self.diagnostic,
            Some(MessageKind::SignatureHelp) => self.signature_help,
            Some(MessageKind::CodeAction) => self.code_action,
            Some(MessageKind::DocumentColor) => self.document_color,
            Some(MessageKind::Formatting) => self.formatting,
            Some(MessageKind::Rename) => self.rename,
            Some(MessageKind::LinkedEditingRange) => self.linked_editing_range,
            Some(MessageKind::ExecuteCommand) => self.execute_command,
        }
    }

    /// The empty set.
    pub fn empty() -> (r: KindSet)
        ensures
            forall|o: Option<MessageKind>| !r.spec_contains(o),
    {
        KindSet {
            life_cycle: false,
            document_synchronization: false,
            notebook_synchronization: false,
            workspace_synchronization: false,
            workspace: false,
            telemetry: false,
            declaration: false,
            definition: false,
            type_definition: false,
            implementation: false,
            references: false,
            call_hierarchy: false,
            type_hierarchy: false,
            document_highlight: false,
            document_link: false,
            hover: false,
            code_lens: false,
            folding_range: false,
            selection: false,
            symbol: false,
            semantic_tokens: false,
            inlay_hint: false,
            inline_value: false,
            moniker: false,
            completion: false,
            diagnostic: false,
            signature_help: false,
            code_action: false,
            document_color: false,
            formatting: false,
            rename: false,
            linked_editing_range: false,
            execute_command: false,
            uncategorized: false,
        }
    }

    /// Membership test.
    pub fn contains(&self, o: Option<MessageKind>) -> (r: bool)
        ensures
            r == self.spec_contains(o),
    {
        match o {
            None => self.uncategorized,
            Some(MessageKind::Lifecycle) => self.life_cycle,
            Some(MessageKind::TextDocumentSynchronization) => self.document_synchronization,
            Some(MessageKind::NotebookDocumentSynchronization) => self.notebook_synchronization,
            Some(MessageKind::WorkspaceSynchronization) => self.workspace_synchronization,
            Some(MessageKind::Workspace) => self.workspace,
            Some(MessageKind::Telemetry) => self.telemetry,
            Some(MessageKind::Declaration) => self.declaration,
            Some(MessageKind::Definition) => self.definition,
            Some(MessageKind::TypeDefinition) => self.type_definition,
            Some(MessageKind::Implementation) => self.implementation,
            Some(MessageKind::References) => self.references,
            Some(MessageKind::CallHierarchy) => self.call_hierarchy,
            Some(MessageKind::TypeHierarchy) => self.type_hierarchy,
            Some(MessageKind::DocumentHighlight) => self.document_highlight,
            Some(MessageKind::DocumentLink) => self.document_link,
            Some(MessageKind::Hover) => self.hover,
            Some(MessageKind::CodeLens) => self.code_lens,
            Some(MessageKind::FoldingRange) => self.folding_range,
            Some(MessageKind::Selection) => self.selection,
            Some(MessageKind::Symbol) => self.symbol,
            Some(MessageKind::SemanticTokens) => self.semantic_tokens,
            Some(MessageKind::InlayHint) => self.inlay_hint,
            Some(MessageKind::InlineValue) => self.inline_value,
            Some(MessageKind::Moniker) => self.moniker,
            Some(MessageKind::Completion) => self.completion,
            Some(MessageKind::Diagnostic) => self.diagnostic,
            Some(MessageKind::SignatureHelp) => self.signature_help,
            Some(MessageKind::CodeAction) => self.code_action,
            Some(MessageKind::DocumentColor) => self.document_color,
            Some(MessageKind::Formatting) => self.formatting,
            Some(MessageKind::Rename) => self.rename,
            Some(MessageKind::LinkedEditingRange) => self.linked_editing_range,
            Some(MessageKind::ExecuteCommand) => self.execute_command,
        }
    }

    /// The set with one optional category added.
    pub open spec fn spec_insert(self, o: Option<MessageKind>) -> KindSet {
        KindSet {
            life_cycle: self.life_cycle || o == Some(MessageKind::Lifecycle),
            document_synchronization: self.document_synchronization || o == Some(
                MessageKind::TextDocumentSynchronization,
            ),
            notebook_synchronization: self.notebook_synchronization || o == Some(
                MessageKind::NotebookDocumentSynchronization,
            ),
            workspace_synchronization: self.workspace_synchronization || o == Some(
                MessageKind::WorkspaceSynchronization,
            ),
            workspace: self.workspace || o == Some(MessageKind::Workspace),
            telemetry: self.telemetry || o == Some(MessageKind::Telemetry),
            declaration: self.declaration || o == Some(MessageKind::Declaration),
            definition: self.definition || o == Some(MessageKind::Definition),
            type_definition: self.type_definition || o == Some(MessageKind::TypeDefinition),
            implementation: self.implementation || o == Some(MessageKind::Implementation),
            references: self.references || o == Some(MessageKind::References),
            call_hierarchy: self.call_hierarchy || o == Some(MessageKind::CallHierarchy),
            type_hierarchy: self.type_hierarchy || o == Some(MessageKind::TypeHierarchy),
            document_highlight: self.document_highlight || o == Some(
                MessageKind::DocumentHighlight,
            ),
            document_link: self.document_link || o == Some(MessageKind::DocumentLink),
            hover: self.hover || o == Some(MessageKind::Hover),
            code_lens: self.code_lens || o == Some(MessageKind::CodeLens),
            folding_range: self.folding_range || o == Some(MessageKind::FoldingRange),
            selection: self.selection || o == Some(MessageKind::Selection),
            symbol: self.symbol || o == Some(MessageKind::Symbol),
            semantic_tokens: self.semantic_tokens || o == Some(MessageKind::SemanticTokens),
            inlay_hint: self.inlay_hint || o == Some(MessageKind::InlayHint),
            inline_value: self.inline_value || o == Some(MessageKind::InlineValue),
            moniker: self.moniker || o == Some(MessageKind::Moniker),
            completion: self.completion || o == Some(MessageKind::Completion),
            diagnostic: self.diagnostic || o == Some(MessageKind::Diagnostic),
            signature_help: self.signature_help || o == Some(MessageKind::SignatureHelp),
            code_action: self.code_action || o == Some(MessageKind::CodeAction),
            document_color: self.document_color || o == Some(MessageKind::DocumentColor),
            formatting: self.formatting || o == Some(MessageKind::Formatting),
            rename: self.rename || o == Some(MessageKind::Rename),
            linked_editing_range: self.linked_editing_range || o == Some(
                MessageKind::LinkedEditingRange,
            ),
            execute_command: self.execute_command || o == Some(MessageKind::ExecuteCommand),
            uncategorized: self.uncategorized || o is None,
        }
    }

    /// Adds one optional category; everything else is unchanged.
    pub fn insert(&mut self, o: Option<MessageKind>)
        ensures
            *final(self) == old(self).spec_insert(o),
    {
        *self = KindSet {
            life_cycle: self.life_cycle || opt_kind_eq(o, Some(MessageKind::Lifecycle)),
            document_synchronization: self.document_synchronization
                || opt_kind_eq(o, Some(MessageKind::TextDocumentSynchronization)),
            notebook_synchronization: self.notebook_synchronization
                || opt_kind_eq(o, Some(MessageKind::NotebookDocumentSynchronization)),
            workspace_synchronization: self.workspace_synchronization
                || opt_kind_eq(o, Some(MessageKind::WorkspaceSynchronization)),
            workspace: self.workspace || opt_kind_eq(o, Some(MessageKind::Workspace)),
            telemetry: self.telemetry || opt_kind_eq(o, Some(MessageKind::Telemetry)),
            declaration: self.declaration || opt_kind_eq(o, Some(MessageKind::Declaration)),
            definition: self.definition || opt_kind_eq(o, Some(MessageKind::Definition)),
            type_definition: self.type_definition || opt_kind_eq(o, Some(MessageKind::TypeDefinition)),
            implementation: self.implementation || opt_kind_eq(o, Some(MessageKind::Implementation)),
            references: self.references || opt_kind_eq(o, Some(MessageKind::References)),
            call_hierarchy: self.call_hierarchy || opt_kind_eq(o, Some(MessageKind::CallHierarchy)),
            type_hierarchy: self.type_hierarchy || opt_kind_eq(o, Some(MessageKind::TypeHierarchy)),
            document_highlight: self.document_highlight
                || opt_kind_eq(o, Some(MessageKind::DocumentHighlight)),
            document_link: self.document_link || opt_kind_eq(o, Some(MessageKind::DocumentLink)),
            hover: self.hover || opt_kind_eq(o, Some(MessageKind::Hover)),
            code_lens: self.code_lens || opt_kind_eq(o, Some(MessageKind::CodeLens)),
            folding_range: self.folding_range || opt_kind_eq(o, Some(MessageKind::FoldingRange)),
            selection: self.selection || opt_kind_eq(o, Some(MessageKind::Selection)),
            symbol: self.symbol || opt_kind_eq(o, Some(MessageKind::Symbol)),
            semantic_tokens: self.semantic_tokens || opt_kind_eq(o, Some(MessageKind::SemanticTokens)),
            inlay_hint: self.inlay_hint || opt_kind_eq(o, Some(MessageKind::InlayHint)),
            inline_value: self.inline_value || opt_kind_eq(o, Some(MessageKind::InlineValue)),
            moniker: self.moniker || opt_kind_eq(o, Some(MessageKind::Moniker)),
            completion: self.completion || opt_kind_eq(o, Some(MessageKind::Completion)),
            diagnostic: self.diagnostic || opt_kind_eq(o, Some(MessageKind::Diagnostic)),
            signature_help: self.signature_help || opt_kind_eq(o, Some(MessageKind::SignatureHelp)),
            code_action: self.code_action || opt_kind_eq(o, Some(MessageKind::CodeAction)),
            document_color: self.document_color || opt_kind_eq(o, Some(MessageKind::DocumentColor)),
            formatting: self.formatting || opt_kind_eq(o, Some(MessageKind::Formatting)),
            rename: self.rename || opt_kind_eq(o, Some(MessageKind::Rename)),
            linked_editing_range: self.linked_editing_range
                || opt_kind_eq(o, Some(MessageKind::LinkedEditingRange)),
            execute_command: self.execute_command || opt_kind_eq(o, Some(MessageKind::ExecuteCommand)),
            uncategorized: self.uncategorized || o.is_none(),
        };
    }
}

/// Equality of two optional categories.
fn opt_kind_eq(a: Option<MessageKind>, b: Option<MessageKind>) -> (r: bool)
    ensures
        r == (a == b),
{
    match (a, b) {
        (None, None) => true,
        (Some(x), Some(y)) => x == y,
        _ => false,
    }
}

/// Membership after an insertion: the inserted optional category, and
/// everything that was already a member.
pub proof fn lemma_insert_contains(s: KindSet, o: Option<MessageKind>, o2: Option<MessageKind>)
    ensures
        s.spec_insert(o).spec_contains(o2) == (s.spec_contains(o2) || o2 == o),
{
    match o2 {
        None => {}
        Some(MessageKind::Lifecycle) => {}
        Some(MessageKind::TextDocumentSynchronization) => {}
        Some(MessageKind::NotebookDocumentSynchronization) => {}
        Some(MessageKind::WorkspaceSynchronization) => {}
        Some(MessageKind::Workspace) => {}
        Some(MessageKind::Telemetry) => {}
        Some(MessageKind::Declaration) => {}
        Some(MessageKind::Definition) => {}
        Some(MessageKind::TypeDefinition) => {}
        Some(MessageKind::Implementation) => {}
        Some(MessageKind::References) => {}
        Some(MessageKind::CallHierarchy) => {}
        Some(MessageKind::TypeHierarchy) => {}
        Some(MessageKind::DocumentHighlight) => {}
        Some(MessageKind::DocumentLink) => {}
        Some(MessageKind::Hover) => {}
        Some(MessageKind::CodeLens) => {}
        Some(MessageKind::FoldingRange) => {}
        Some(MessageKind::Selection) => {}
        Some(MessageKind::Symbol) => {}
        Some(MessageKind::SemanticTokens) => {}
        Some(MessageKind::InlayHint) => {}
        Some(MessageKind::InlineValue) => {}
        Some(MessageKind::Moniker) => {}
        Some(MessageKind::Completion) => {}
        Some(MessageKind::Diagnostic) => {}
        Some(MessageKind::SignatureHelp) => {}
        Some(MessageKind::CodeAction) => {}
        Some(MessageKind::DocumentColor) => {}
        Some(MessageKind::Formatting) => {}
        Some(MessageKind::Rename) => {}
        Some(MessageKind::LinkedEditingRange) => {}
        Some(MessageKind::ExecuteCommand) => {}
    }
}

/// The filtering query a session view is requested with: one optional
/// checkbox per category. A checkbox absent from the query is `None`.
pub struct GetSessionParams {
    pub session_id: i64,
    pub life_cycle: Option<bool>,
    pub document_synchronization: Option<bool>,
    pub notebook_synchronization: Option<bool>,
    pub workspace_synchronization: Option<bool>,
    pub workspace: Option<bool>,
    pub telemetry: Option<bool>,
    pub declaration: Option<bool>,
    pub definition: Option<bool>,
    pub type_definition: Option<bool>,
    pub implementation: Option<bool>,
    pub references: Option<bool>,
    pub call_hierarchy: Option<bool>,
    pub type_hierarchy: Option<bool>,
    pub document_highlight: Option<bool>,
    pub document_link: Option<bool>,
    pub hover: Option<bool>,
    pub code_lens: Option<bool>,
    pub folding_range: Option<bool>,
    pub selection: Option<bool>,
    pub symbol: Option<bool>,
    pub semantic_tokens: Option<bool>,
    pub inlay_hint: Option<bool>,
    pub inline_value: Option<bool>,
    pub moniker: Option<bool>,
    pub completion: Option<bool>,
    pub diagnostic: Option<bool>,
    pub signature_help: Option<bool>,
    pub code_action: Option<bool>,
    pub document_color: Option<bool>,
    pub formatting: Option<bool>,
    pub rename: Option<bool>,
    pub linked_editing_range: Option<bool>,
    pub execute_command: Option<bool>,
    pub uncategorized: Option<bool>,
}

impl GetSessionParams {
    /// No checkbox at all was given, so every category is to be shown.
    pub open spec fn spec_show_all(self) -> bool {
        self.life_cycle is None && self.document_synchronization is None
            && self.notebook_synchronization is None && self.workspace_synchronization is None
            && self.workspace is None && self.telemetry is None && self.declaration is None
            && self.definition is None && self.type_definition is None
            && self.implementation is None && self.references is None
            && self.call_hierarchy is None && self.type_hierarchy is None
            && self.document_highlight is None && self.document_link is None && self.hover is None
            && self.code_lens is None && self.folding_range is None && self.selection is None
            && self.symbol is None && self.semantic_tokens is None && self.inlay_hint is None
            && self.inline_value is None && self.moniker is None && self.completion is None
            && self.diagnostic is None && self.signature_help is None && self.code_action is None
            && self.document_color is None && self.formatting is None && self.rename is None
            && self.linked_editing_range is None && self.execute_command is None
            && self.uncategorized is None
    }

    /// The checkbox for this optional category was checked.
    pub open spec fn spec_selected(self, o: Option<MessageKind>) -> bool {
        match o {
            None => self.uncategorized == Some(true),
            Some(MessageKind::Lifecycle) => self.life_cycle == Some(true),
            Some(MessageKind::TextDocumentSynchronization) => self.document_synchronization
                == Some(true),
            Some(MessageKind::NotebookDocumentSynchronization) => self.notebook_synchronization
                == Some(true),
            Some(MessageKind::WorkspaceSynchronization) => self.workspace_synchronization
                == Some(true),
            Some(MessageKind::Workspace) => self.workspace == Some(true),
            Some(MessageKind::Telemetry) => self.telemetry == Some(true),
            Some(MessageKind::Declaration) => self.declaration == Some(true),
            Some(MessageKind::Definition) => self.definition == Some(true),
            Some(MessageKind::TypeDefinition) => self.type_definition == Some(true),
            Some(MessageKind::Implementation) => self.implementation == Some(true),
            Some(MessageKind::References) => self.references == Some(true),
            Some(MessageKind::CallHierarchy) => self.call_hierarchy == Some(true),
            Some(MessageKind::TypeHierarchy) => self.type_hierarchy == Some(true),
            Some(MessageKind::DocumentHighlight) => self.document_highlight == Some(true),
            Some(MessageKind::DocumentLink) => self.document_link == Some(true),
            Some(MessageKind::Hover) => self.hover == Some(true),
            Some(MessageKind::CodeLens) => self.code_lens == Some(true),
            Some(MessageKind::FoldingRange) => self.folding_range == Some(true),
            Some(MessageKind::Selection) => self.selection == Some(true),
            Some(MessageKind::Symbol) => self.symbol == Some(true),
            Some(MessageKind::SemanticTokens) => self.semantic_tokens == Some(true),
            Some(MessageKind::InlayHint) => self.inlay_hint == Some(true),
            Some(MessageKind::InlineValue) => self.inline_value == Some(true),
            Some(MessageKind::Moniker) => self.moniker == Some(true),
            Some(MessageKind::Completion) => self.completion == Some(true),
            Some(MessageKind::Diagnostic) => self.diagnostic == Some(true),
            Some(MessageKind::SignatureHelp) => self.signature_help == Some(true),
            Some(MessageKind::CodeAction) => self.code_action == Some(true),
            Some(MessageKind::DocumentColor) => self.document_color == Some(true),
            Some(MessageKind::Formatting) => self.formatting == Some(true),
            Some(MessageKind::Rename) => self.rename == Some(true),
            Some(MessageKind::LinkedEditingRange) => self.linked_editing_range == Some(true),
            Some(MessageKind::ExecuteCommand) => self.execute_command == Some(true),
        }
    }

    /// The allow-list the query denotes: every category when no checkbox was
    /// given at all, otherwise exactly the checked ones.
    pub fn build_message_classification_allow_list(&self) -> (r: KindSet)
        ensures
            forall|o: Option<MessageKind>|
                #[trigger] r.spec_contains(o) == (self.spec_show_all() || self.spec_selected(o)),
    {
        let show_all = self.life_cycle.is_none() && self.document_synchronization.is_none()
            && self.notebook_synchronization.is_none() && self.workspace_synchronization.is_none()
            && self.workspace.is_none() && self.telemetry.is_none() && self.declaration.is_none()
            && self.definition.is_none() && self.type_definition.is_none()
            && self.implementation.is_none() && self.references.is_none()
            && self.call_hierarchy.is_none() && self.type_hierarchy.is_none()
            && self.document_highlight.is_none() && self.document_link.is_none()
            && self.hover.is_none() && self.code_lens.is_none() && self.folding_range.is_none()
            && self.selection.is_none() && self.symbol.is_none() && self.semantic_tokens.is_none()
            && self.inlay_hint.is_none() && self.inline_value.is_none() && self.moniker.is_none()
            && self.completion.is_none() && self.diagnostic.is_none()
            && self.signature_help.is_none() && self.code_action.is_none()
            && self.document_color.is_none() && self.formatting.is_none() && self.rename.is_none()
            && self.linked_editing_range.is_none() && self.execute_command.is_none()
            && self.uncategorized.is_none();

        KindSet {
            life_cycle: show_all || matches!(self.life_cycle, Some(true)),
            document_synchronization: show_all || matches!(self.document_synchronization, Some(true)),
            notebook_synchronization: show_all || matches!(self.notebook_synchronization, Some(true)),
            workspace_synchronization: show_all || matches!(self.workspace_synchronization, Some(true)),
            workspace: show_all || matches!(self.workspace, Some(true)),
            telemetry: show_all || matches!(self.telemetry, Some(true)),
            declaration: show_all || matches!(self.declaration, Some(true)),
            definition: show_all || matches!(self.definition, Some(true)),
            type_definition: show_all || matches!(self.type_definition, Some(true)),
            implementation: show_all || matches!(self.implementation, Some(true)),
            references: show_all || matches!(self.references, Some(true)),
            call_hierarchy: show_all || matches!(self.call_hierarchy, Some(true)),
            type_hierarchy: show_all || matches!(self.type_hierarchy, Some(true)),
            document_highlight: show_all || matches!(self.document_highlight, Some(true)),
            document_link: show_all || matches!(self.document_link, Some(true)),
            hover: show_all || matches!(self.hover, Some(true)),
            code_lens: show_all || matches!(self.code_lens, Some(true)),
            folding_range: show_all || matches!(self.folding_range, Some(true)),
            selection: show_all || matches!(self.selection, Some(true)),
            symbol: show_all || matches!(self.symbol, Some(true)),
            semantic_tokens: show_all || matches!(self.semantic_tokens, Some(true)),
            inlay_hint: show_all || matches!(self.inlay_hint, Some(true)),
            inline_value: show_all || matches!(self.inline_value, Some(true)),
            moniker: show_all || matches!(self.moniker, Some(true)),
            completion: show_all || matches!(self.completion, Some(true)),
            diagnostic: show_all || matches!(self.diagnostic, Some(true)),
            signature_help: show_all || matches!(self.signature_help, Some(true)),
            code_action: show_all || matches!(self.code_action, Some(true)),
            document_color: show_all || matches!(self.document_color, Some(true)),
            formatting: show_all || matches!(self.formatting, Some(true)),
            rename: show_all || matches!(self.rename, Some(true)),
            linked_editing_range: show_all || matches!(self.linked_editing_range, Some(true)),
            execute_command: show_all || matches!(self.execute_command, Some(true)),
            uncategorized: show_all || matches!(self.uncategorized, Some(true)),
        }
    }
}

/// The set of optional categories that actually occur in a conversation:
/// exactly those some recorded message classifies to. The filtering form
/// offers a checkbox per member.
pub fn kinds_present(conversation: &Conversation) -> (r: KindSet)
    ensures
        forall|o: Option<MessageKind>|
            #[trigger] r.spec_contains(o) <==> exists|j: int|
                0 <= j < conversation@.messages.len() && spec_classify(
                    #[trigger] conversation@.messages[j].message,
                    conversation@,
                ) == o,
{
    let mut present = KindSet::empty();
    let messages = conversation.messages();
    let mut i: usize = 0;
    while i < messages.len()
        invariant
            i <= messages.len(),
            conversation@.messages.len() == messages@.len(),
            forall|j: int|
                0 <= j < messages@.len() ==> #[trigger] conversation@.messages[j]
                    == messages@[j]@,
            forall|o: Option<MessageKind>|
                #[trigger] present.spec_contains(o) <==> exists|j: int|
                    0 <= j < i && spec_classify(
                        #[trigger] conversation@.messages[j].message,
                        conversation@,
                    ) == o,
        decreases messages.len() - i,
    {
        let ghost pre = present;
        let k = classify(&messages[i].message, conversation);
        proof {
            assert(spec_classify(conversation@.messages[i as int].message, conversation@) == k);
        }
        present.insert(k);
        i = i + 1;
        proof {
            let ghost n = i as int;
            assert forall|o: Option<MessageKind>| #[trigger] present.spec_contains(o)
                implies exists|j: int|
                    0 <= j < n && spec_classify(
                        #[trigger] conversation@.messages[j].message,
                        conversation@,
                    ) == o by {
                lemma_insert_contains(pre, k, o);
                if pre.spec_contains(o) {
                    let j = choose|j: int|
                        0 <= j < n - 1 && spec_classify(
                            #[trigger] conversation@.messages[j].message,
                            conversation@,
                        ) == o;
                    assert(spec_classify(conversation@.messages[j].message, conversation@) == o);
                } else {
                    assert(o == k);
                    assert(spec_classify(conversation@.messages[n - 1].message, conversation@)
                        == o);
                }
            }
            assert forall|o: Option<MessageKind>|
                (exists|j: int|
                    0 <= j < n && spec_classify(
                        #[trigger] conversation@.messages[j].message,
                        conversation@,
                    ) == o) implies #[trigger] present.spec_contains(o) by {
                lemma_insert_contains(pre, k, o);
                let j = choose|j: int|
                    0 <= j < n && spec_classify(
                        #[trigger] conversation@.messages[j].message,
                        conversation@,
                    ) == o;
                if j < n - 1 {
                    assert(pre.spec_contains(o));
                }
            }
        }
    }
    present
}

} // verus!
