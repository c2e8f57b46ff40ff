//! The two static protocol tables: method name to category and method name
//! to declared origin, plus the fixed subset of request methods that may
//! declare a work-done progress token.
//!
//! These encode protocol-specification knowledge and never change at run
//! time. Unknown methods map to `None` in both tables. They are written as
//! literal if-chains so an addition is a data change, not a control-flow
//! change.

use vstd::prelude::*;

use crate::kind::{MessageKind, MessageSource};
use crate::text::str_eq;

verus! {

pub open spec fn spec_category_of_method(m: Seq<char>) -> Option<MessageKind> {
    if m == "initialize"@ {
        Some(MessageKind::Lifecycle)
    } else if m == "client/registerCapability"@ {
        Some(MessageKind::Lifecycle)
    } else if m == "client/unregisterCapability"@ {
        Some(MessageKind::Lifecycle)
    } else if m == "shutdown"@ {
        Some(MessageKind::Lifecycle)
    } else if m == "exit"@ {
        Some(MessageKind::Lifecycle)
    } else if m == "initialized"@ {
        Some(MessageKind::Lifecycle)
    } else if m == "$/setTrace"@ {
        Some(MessageKind::Lifecycle)
    } else if m == "$/logTrace"@ {
        Some(MessageKind::Lifecycle)
    } else if m == "window/workDoneProgress/create"@ {
        Some(MessageKind::Lifecycle)
    } else if m == "textDocument/didOpen"@ || m == "textDocument/didChange"@
        || m == "textDocument/willSave"@ || m == "textDocument/willSaveWaitUntil"@
        || m == "textDocument/didSave"@ || m == "textDocument/didClose"@ {
        Some(MessageKind::TextDocumentSynchronization)
    } else if m == "notebookDocument/didOpen"@ || m == "notebookDocument/didChange"@
        || m == "notebookDocument/didSave"@ || m == "notebookDocument/didClose"@ {
        Some(MessageKind::NotebookDocumentSynchronization)
    } else if m == "workspace/didChangeConfiguration"@ || m == "workspace/didChangeWorkspaceFolders"@
        || m == "workspace/didCreateFiles"@ || m == "workspace/didDeleteFiles"@
        || m == "workspace/didChangeWatchedFiles"@ {
        Some(MessageKind::WorkspaceSynchronization)
    } else if m == "workspace/willCreateFiles"@ || m == "workspace/willRenameFiles"@ {
        Some(MessageKind::WorkspaceSynchronization)
    } else if m == "workspace/configuration"@ || m == "workspace/workspaceFolders"@ {
        Some(MessageKind::WorkspaceSynchronization)
    } else if m == "window/showMessage"@ || m == "window/showMessageRequest"@
        || m == "window/showDocument"@ || m == "window/logMessage"@
        || m == "window/workDoneProgress/cancel"@ {
        Some(MessageKind::Workspace)
    } else if m == "workspace/applyEdit"@ {
        Some(MessageKind::Workspace)
    } else if m == "telemetry/event"@ {
        Some(MessageKind::Telemetry)
    } else if m == "textDocument/declaration"@ {
        Some(MessageKind::Declaration)
    } else if m == "textDocument/definition"@ {
        Some(MessageKind::Definition)
    } else if m == "textDocument/typeDefinition"@ {
        Some(MessageKind::TypeDefinition)
    } else if m == "textDocument/implementation"@ {
        Some(MessageKind::Implementation)
    } else if m == "textDocument/references"@ {
        Some(MessageKind::References)
    } else if m == "textDocument/prepareCallHierarchy"@ || m == "callHierarchy/incomingCalls"@
        || m == "callHierarchy/outgoingCalls"@ {
        Some(MessageKind::CallHierarchy)
    } else if m == "textDocument/prepareTypeHierarchy"@ || m == "typeHierarchy/supertypes"@
        || m == "typeHierarchy/subtypes"@ {
        Some(MessageKind::TypeHierarchy)
    } else if m == "textDocument/documentHighlight"@ {
        Some(MessageKind::DocumentHighlight)
    } else if m == "textDocument/documentLink"@ || m == "documentLink/resolve"@ {
        Some(MessageKind::DocumentLink)
    } else if m == "textDocument/hover"@ {
        Some(MessageKind::Hover)
    } else if m == "textDocument/codeLens"@ || m == "codeLens/resolve"@
        || m == "workspace/codeLens/refresh"@ {
        Some(MessageKind::CodeLens)
    } else if m == "textDocument/foldingRange"@ {
        Some(MessageKind::FoldingRange)
    } else if m == "textDocument/selectionRange"@ {
        Some(MessageKind::Selection)
    } else if m == "textDocument/documentSymbol"@ || m == "workspace/symbol"@
        || m == "workspaceSymbol/resolve"@ {
        Some(MessageKind::Symbol)
    } else if m == "textDocument/semanticTokens/full"@ || m == "textDocument/semanticTokens/full/delta"@
        || m == "textDocument/semanticTokens/range"@ || m == "workspace/semanticTokens/refresh"@ {
        Some(MessageKind::SemanticTokens)
    } else if m == "textDocument/inlayHint"@ || m == "inlayHint/resolve"@
        || m == "workspace/inlayHint/refresh"@ {
        Some(MessageKind::InlayHint)
    } else if m == "textDocument/inlineValue"@ || m == "workspace/inlineValue/refresh"@ {
        Some(MessageKind::InlineValue)
    } else if m == "textDocument/moniker"@ {
        Some(MessageKind::Moniker)
    } else if m == "textDocument/completion"@ || m == "completionItem/resolve"@ {
        Some(MessageKind::Completion)
    } else if m == "textDocument/diagnostic"@ || m == "workspace/diagnostic"@
        || m == "textDocument/publishDiagnostics"@ || m == "workspace/diagnostic/refresh"@ {
        Some(MessageKind::Diagnostic)
    } else if m == "textDocument/signatureHelp"@ {
        Some(MessageKind::SignatureHelp)
    } else if m == "textDocument/codeAction"@ || m == "codeAction/resolve"@ {
        Some(MessageKind::CodeAction)
    } else if m == "textDocument/documentColor"@ || m == "textDocument/colorPresentation"@ {
        Some(MessageKind::DocumentColor)
    } else if m == "textDocument/formatting"@ || m == "textDocument/rangeFormatting"@
        || m == "textDocument/onTypeFormatting"@ {
        Some(MessageKind::Formatting)
    } else if m == "textDocument/rename"@ || m == "textDocument/prepareRename"@ {
        Some(MessageKind::Rename)
    } else if m == "textDocument/linkedEditingRange"@ {
        Some(MessageKind::LinkedEditingRange)
    } else if m == "workspace/executeCommand"@ {
        Some(MessageKind::ExecuteCommand)
    } else {
        None
    }
}

pub open spec fn spec_origin_of_method(m: Seq<char>) -> Option<MessageSource> {
    if m == "initialize"@ {
        Some(MessageSource::Client)
    } else if m == "client/registerCapability"@ || m == "client/unregisterCapability"@ {
        Some(MessageSource::Server)
    } else if m == "shutdown"@ {
        Some(MessageSource::Client)
    } else if m == "exit"@ || m == "initialized"@ || m == "$/setTrace"@ {
        Some(MessageSource::Client)
    } else if m == "$/logTrace"@ {
        Some(MessageSource::Server)
    } else if m == "textDocument/didOpen"@ || m == "textDocument/didChange"@
        || m == "textDocument/willSave"@ || m == "textDocument/willSaveWaitUntil"@
        || m == "textDocument/didSave"@ || m == "textDocument/didClose"@ {
        Some(MessageSource::Client)
    } else if m == "notebookDocument/didOpen"@ || m == "notebookDocument/didChange"@
        || m == "notebookDocument/didSave"@ || m == "notebookDocument/didClose"@ {
        Some(MessageSource::Client)
    } else if m == "workspace/didChangeConfiguration"@ || m == "workspace/didChangeWorkspaceFolders"@
        || m == "workspace/didCreateFiles"@ || m == "workspace/didDeleteFiles"@
        || m == "workspace/didChangeWatchedFiles"@ {
        Some(MessageSource::Client)
    } else if m == "window/showMessage"@ || m == "window/showMessageRequest"@
        || m == "window/showDocument"@ || m == "window/logMessage"@
        || m == "window/workDoneProgress/cancel"@ {
        Some(MessageSource::Client)
    } else if m == "telemetry/event"@ {
        Some(MessageSource::Server)
    } else if m == "textDocument/declaration"@ || m == "textDocument/definition"@
        || m == "textDocument/typeDefinition"@ || m == "textDocument/implementation"@
        || m == "textDocument/references"@ || m == "textDocument/prepareCallHierarchy"@
        || m == "callHierarchy/incomingCalls"@ || m == "callHierarchy/outgoingCalls"@
        || m == "textDocument/prepareTypeHierarchy"@ || m == "typeHierarchy/supertypes"@
        || m == "typeHierarchy/subtypes"@ || m == "textDocument/documentHighlight"@
        || m == "textDocument/documentLink"@ || m == "documentLink/resolve"@
        || m == "textDocument/hover"@ || m == "textDocument/codeLens"@
        || m == "codeLens/resolve"@ || m == "textDocument/foldingRange"@
        || m == "textDocument/selectionRange"@ || m == "textDocument/documentSymbol"@
        || m == "textDocument/semanticTokens/full"@ || m == "textDocument/semanticTokens/full/delta"@
        || m == "textDocument/semanticTokens/range"@ || m == "textDocument/inlayHint"@
        || m == "inlayHint/resolve"@ || m == "textDocument/inlineValue"@
        || m == "textDocument/moniker"@ || m == "textDocument/completion"@
        || m == "completionItem/resolve"@ || m == "textDocument/diagnostic"@
        || m == "workspace/diagnostic"@ || m == "textDocument/signatureHelp"@
        || m == "textDocument/codeAction"@ || m == "codeAction/resolve"@
        || m == "textDocument/documentColor"@ || m == "textDocument/colorPresentation"@
        || m == "textDocument/formatting"@ || m == "textDocument/rangeFormatting"@
        || m == "textDocument/onTypeFormatting"@ || m == "textDocument/rename"@
        || m == "textDocument/prepareRename"@ || m == "textDocument/linkedEditingRange"@
        || m == "workspace/symbol"@ || m == "workspaceSymbol/resolve"@
        || m == "workspace/willCreateFiles"@ || m == "workspace/willRenameFiles"@
        || m == "workspace/executeCommand"@ {
        Some(MessageSource::Client)
    } else if m == "workspace/codeLens/refresh"@ || m == "workspace/semanticTokens/refresh"@
        || m == "workspace/inlayHint/refresh"@ || m == "workspace/inlineValue/refresh"@
        || m == "textDocument/publishDiagnostics"@ || m == "workspace/diagnostic/refresh"@
        || m == "workspace/configuration"@ || m == "workspace/workspaceFolders"@
        || m == "workspace/applyEdit"@ {
        Some(MessageSource::Server)
    } else if m == "window/workDoneProgress/create"@ {
        Some(MessageSource::Server)
    } else {
        None
    }
}

/// The fixed set of request methods that may declare a work-done progress
/// token in their params.
pub open spec fn spec_progress_capable(m: Seq<char>) -> bool {
    m == "initialize"@ || m == "textDocument/declaration"@ || m == "textDocument/definition"@
        || m == "textDocument/typeDefinition"@ || m == "textDocument/implementation"@
        || m == "textDocument/references"@ || m == "textDocument/prepareCallHierarchy"@
        || m == "callHierarchy/incomingCalls"@ || m == "callHierarchy/outgoingCalls"@
        || m == "textDocument/prepareTypeHierarchy"@ || m == "typeHierarchy/supertypes"@
        || m == "typeHierarchy/subtypes"@ || m == "textDocument/documentHighlight"@
        || m == "textDocument/documentLink"@ || m == "textDocument/hover"@
        || m == "textDocument/codeLens"@ || m == "textDocument/foldingRange"@
        || m == "textDocument/selectionRange"@ || m == "textDocument/documentSymbol"@
        || m == "textDocument/semanticTokens/full"@ || m == "textDocument/semanticTokens/full/delta"@
        || m == "textDocument/semanticTokens/range"@ || m == "textDocument/inlayHint"@
        || m == "textDocument/inlineValue"@ || m == "textDocument/moniker"@
        || m == "textDocument/completion"@ || m == "textDocument/diagnostic"@
        || m == "workspace/diagnostic"@ || m == "textDocument/signatureHelp"@
        || m == "textDocument/codeAction"@ || m == "textDocument/documentColor"@
        || m == "textDocument/colorPresentation"@ || m == "textDocument/formatting"@
        || m == "textDocument/rangeFormatting"@ || m == "textDocument/rename"@
        || m == "textDocument/prepareRename"@ || m == "textDocument/linkedEditingRange"@
        || m == "workspace/symbol"@ || m == "workspace/executeCommand"@
}

/// The category table: protocol method name to semantic category. Total;
/// unknown methods yield `None`.
pub fn category_of_method(method: &str) -> (r: Option<MessageKind>)
    ensures
        r == spec_category_of_method(method@),
{
    if str_eq(method, "initialize") {
        Some(MessageKind::Lifecycle)
    } else if str_eq(method, "client/registerCapability") {
        Some(MessageKind::Lifecycle)
    } else if str_eq(method, "client/unregisterCapability") {
        Some(MessageKind::Lifecycle)
    } else if str_eq(method, "shutdown") {
        Some(MessageKind::Lifecycle)
    } else if str_eq(method, "exit") {
        Some(MessageKind::Lifecycle)
    } else if str_eq(method, "initialized") {
        Some(MessageKind::Lifecycle)
    } else if str_eq(method, "$/setTrace") {
        Some(MessageKind::Lifecycle)
    } else if str_eq(method, "$/logTrace") {
        Some(MessageKind::Lifecycle)
    } else if str_eq(method, "window/workDoneProgress/create") {
        Some(MessageKind::Lifecycle)
    } else if str_eq(method, "textDocument/didOpen") || str_eq(method, "textDocument/didChange")
        || str_eq(method, "textDocument/willSave") || str_eq(method, "textDocument/willSaveWaitUntil")
        || str_eq(method, "textDocument/didSave") || str_eq(method, "textDocument/didClose") {
        Some(MessageKind::TextDocumentSynchronization)
    } else if str_eq(method, "notebookDocument/didOpen") || str_eq(method, "notebookDocument/didChange")
        || str_eq(method, "notebookDocument/didSave") || str_eq(method, "notebookDocument/didClose") {
        Some(MessageKind::NotebookDocumentSynchronization)
    } else if str_eq(method, "workspace/didChangeConfiguration") || str_eq(method, "workspace/didChangeWorkspaceFolders")
        || str_eq(method, "workspace/didCreateFiles") || str_eq(method, "workspace/didDeleteFiles")
        || str_eq(method, "workspace/didChangeWatchedFiles") {
        Some(MessageKind::WorkspaceSynchronization)
    } else if str_eq(method, "workspace/willCreateFiles") || str_eq(method, "workspace/willRenameFiles") {
        Some(MessageKind::WorkspaceSynchronization)
    } else if str_eq(method, "workspace/configuration") || str_eq(method, "workspace/workspaceFolders") {
        Some(MessageKind::WorkspaceSynchronization)
    } else if str_eq(method, "window/showMessage") || str_eq(method, "window/showMessageRequest")
        || str_eq(method, "window/showDocument") || str_eq(method, "window/logMessage")
        || str_eq(method, "window/workDoneProgress/cancel") {
        Some(MessageKind::Workspace)
    } else if str_eq(method, "workspace/applyEdit") {
        Some(MessageKind::Workspace)
    } else if str_eq(method, "telemetry/event") {
        Some(MessageKind::Telemetry)
    } else if str_eq(method, "textDocument/declaration") {
        Some(MessageKind::Declaration)
    } else if str_eq(method, "textDocument/definition") {
        Some(MessageKind::Definition)
    } else if str_eq(method, "textDocument/typeDefinition") {
        Some(MessageKind::TypeDefinition)
    } else if str_eq(method, "textDocument/implementation") {
        Some(MessageKind::Implementation)
    } else if str_eq(method, "textDocument/references") {
        Some(MessageKind::References)
    } else if str_eq(method, "textDocument/prepareCallHierarchy") || str_eq(method, "callHierarchy/incomingCalls")
        || str_eq(method, "callHierarchy/outgoingCalls") {
        Some(MessageKind::CallHierarchy)
    } else if str_eq(method, "textDocument/prepareTypeHierarchy") || str_eq(method, "typeHierarchy/supertypes")
        || str_eq(method, "typeHierarchy/subtypes") {
        Some(MessageKind::TypeHierarchy)
    } else if str_eq(method, "textDocument/documentHighlight") {
        Some(MessageKind::DocumentHighlight)
    } else if str_eq(method, "textDocument/documentLink") || str_eq(method, "documentLink/resolve") {
        Some(MessageKind::DocumentLink)
    } else if str_eq(method, "textDocument/hover") {
        Some(MessageKind::Hover)
    } else if str_eq(method, "textDocument/codeLens") || str_eq(method, "codeLens/resolve")
        || str_eq(method, "workspace/codeLens/refresh") {
        Some(MessageKind::CodeLens)
    } else if str_eq(method, "textDocument/foldingRange") {
        Some(MessageKind::FoldingRange)
    } else if str_eq(method, "textDocument/selectionRange") {
        Some(MessageKind::Selection)
    } else if str_eq(method, "textDocument/documentSymbol") || str_eq(method, "workspace/symbol")
        || str_eq(method, "workspaceSymbol/resolve") {
        Some(MessageKind::Symbol)
    } else if str_eq(method, "textDocument/semanticTokens/full") || str_eq(method, "textDocument/semanticTokens/full/delta")
        || str_eq(method, "textDocument/semanticTokens/range") || str_eq(method, "workspace/semanticTokens/refresh") {
        Some(MessageKind::SemanticTokens)
    } else if str_eq(method, "textDocument/inlayHint") || str_eq(method, "inlayHint/resolve")
        || str_eq(method, "workspace/inlayHint/refresh") {
        Some(MessageKind::InlayHint)
    } else if str_eq(method, "textDocument/inlineValue") || str_eq(method, "workspace/inlineValue/refresh") {
        Some(MessageKind::InlineValue)
    } else if str_eq(method, "textDocument/moniker") {
        Some(MessageKind::Moniker)
    } else if str_eq(method, "textDocument/completion") || str_eq(method, "completionItem/resolve") {
        Some(MessageKind::Completion)
    } else if str_eq(method, "textDocument/diagnostic") || str_eq(method, "workspace/diagnostic")
        || str_eq(method, "textDocument/publishDiagnostics") || str_eq(method, "workspace/diagnostic/refresh") {
        Some(MessageKind::Diagnostic)
    } else if str_eq(method, "textDocument/signatureHelp") {
        Some(MessageKind::SignatureHelp)
    } else if str_eq(method, "textDocument/codeAction") || str_eq(method, "codeAction/resolve") {
        Some(MessageKind::CodeAction)
    } else if str_eq(method, "textDocument/documentColor") || str_eq(method, "textDocument/colorPresentation") {
        Some(MessageKind::DocumentColor)
    } else if str_eq(method, "textDocument/formatting") || str_eq(method, "textDocument/rangeFormatting")
        || str_eq(method, "textDocument/onTypeFormatting") {
        Some(MessageKind::Formatting)
    } else if str_eq(method, "textDocument/rename") || str_eq(method, "textDocument/prepareRename") {
        Some(MessageKind::Rename)
    } else if str_eq(method, "textDocument/linkedEditingRange") {
        Some(MessageKind::LinkedEditingRange)
    } else if str_eq(method, "workspace/executeCommand") {
        Some(MessageKind::ExecuteCommand)
    } else {
        None
    }
}

/// The origin table: protocol method name to the peer the specification
/// declares as the sender. Total; unknown methods yield `None`.
pub fn origin_of_method(method: &str) -> (r: Option<MessageSource>)
    ensures
        r == spec_origin_of_method(method@),
{
    if str_eq(method, "initialize") {
        Some(MessageSource::Client)
    } else if str_eq(method, "client/registerCapability") || str_eq(method, "client/unregisterCapability") {
        Some(MessageSource::Server)
    } else if str_eq(method, "shutdown") {
        Some(MessageSource::Client)
    } else if str_eq(method, "exit") || str_eq(method, "initialized") || str_eq(method, "$/setTrace") {
        Some(MessageSource::Client)
    } else if str_eq(method, "$/logTrace") {
        Some(MessageSource::Server)
    } else if str_eq(method, "textDocument/didOpen") || str_eq(method, "textDocument/didChange")
        || str_eq(method, "textDocument/willSave") || str_eq(method, "textDocument/willSaveWaitUntil")
        || str_eq(method, "textDocument/didSave") || str_eq(method, "textDocument/didClose") {
        Some(MessageSource::Client)
    } else if str_eq(method, "notebookDocument/didOpen") || str_eq(method, "notebookDocument/didChange")
        || str_eq(method, "notebookDocument/didSave") || str_eq(method, "notebookDocument/didClose") {
        Some(MessageSource::Client)
    } else if str_eq(method, "workspace/didChangeConfiguration") || str_eq(method, "workspace/didChangeWorkspaceFolders")
        || str_eq(method, "workspace/didCreateFiles") || str_eq(method, "workspace/didDeleteFiles")
        || str_eq(method, "workspace/didChangeWatchedFiles") {
        Some(MessageSource::Client)
    } else if str_eq(method, "window/showMessage") || str_eq(method, "window/showMessageRequest")
        || str_eq(method, "window/showDocument") || str_eq(method, "window/logMessage")
        || str_eq(method, "window/workDoneProgress/cancel") {
        Some(MessageSource::Client)
    } else if str_eq(method, "telemetry/event") {
        Some(MessageSource::Server)
    } else if str_eq(method, "textDocument/declaration") || str_eq(method, "textDocument/definition")
        || str_eq(method, "textDocument/typeDefinition") || str_eq(method, "textDocument/implementation")
        || str_eq(method, "textDocument/references") || str_eq(method, "textDocument/prepareCallHierarchy")
        || str_eq(method, "callHierarchy/incomingCalls") || str_eq(method, "callHierarchy/outgoingCalls")
        || str_eq(method, "textDocument/prepareTypeHierarchy") || str_eq(method, "typeHierarchy/supertypes")
        || str_eq(method, "typeHierarchy/subtypes") || str_eq(method, "textDocument/documentHighlight")
        || str_eq(method, "textDocument/documentLink") || str_eq(method, "documentLink/resolve")
        || str_eq(method, "textDocument/hover") || str_eq(method, "textDocument/codeLens")
        || str_eq(method, "codeLens/resolve") || str_eq(method, "textDocument/foldingRange")
        || str_eq(method, "textDocument/selectionRange") || str_eq(method, "textDocument/documentSymbol")
        || str_eq(method, "textDocument/semanticTokens/full") || str_eq(method, "textDocument/semanticTokens/full/delta")
        || str_eq(method, "textDocument/semanticTokens/range") || str_eq(method, "textDocument/inlayHint")
        || str_eq(method, "inlayHint/resolve") || str_eq(method, "textDocument/inlineValue")
        || str_eq(method, "textDocument/moniker") || str_eq(method, "textDocument/completion")
        || str_eq(method, "completionItem/resolve") || str_eq(method, "textDocument/diagnostic")
        || str_eq(method, "workspace/diagnostic") || str_eq(method, "textDocument/signatureHelp")
        || str_eq(method, "textDocument/codeAction") || str_eq(method, "codeAction/resolve")
        || str_eq(method, "textDocument/documentColor") || str_eq(method, "textDocument/colorPresentation")
        || str_eq(method, "textDocument/formatting") || str_eq(method, "textDocument/rangeFormatting")
        || str_eq(method, "textDocument/onTypeFormatting") || str_eq(method, "textDocument/rename")
        || str_eq(method, "textDocument/prepareRename") || str_eq(method, "textDocument/linkedEditingRange")
        || str_eq(method, "workspace/symbol") || str_eq(method, "workspaceSymbol/resolve")
        || str_eq(method, "workspace/willCreateFiles") || str_eq(method, "workspace/willRenameFiles")
        || str_eq(method, "workspace/executeCommand") {
        Some(MessageSource::Client)
    } else if str_eq(method, "workspace/codeLens/refresh") || str_eq(method, "workspace/semanticTokens/refresh")
        || str_eq(method, "workspace/inlayHint/refresh") || str_eq(method, "workspace/inlineValue/refresh")
        || str_eq(method, "textDocument/publishDiagnostics") || str_eq(method, "workspace/diagnostic/refresh")
        || str_eq(method, "workspace/configuration") || str_eq(method, "workspace/workspaceFolders")
        || str_eq(method, "workspace/applyEdit") {
        Some(MessageSource::Server)
    } else if str_eq(method, "window/workDoneProgress/create") {
        Some(MessageSource::Server)
    } else {
        None
    }
}

/// Whether a request method belongs to the progress-capable subset.
pub fn is_progress_capable(method: &str) -> (r: bool)
    ensures
        r == spec_progress_capable(method@),
{
    str_eq(method, "initialize") || str_eq(method, "textDocument/declaration")
        || str_eq(method, "textDocument/definition") || str_eq(method, "textDocument/typeDefinition")
        || str_eq(method, "textDocument/implementation") || str_eq(method, "textDocument/references")
        || str_eq(method, "textDocument/prepareCallHierarchy") || str_eq(method, "callHierarchy/incomingCalls")
        || str_eq(method, "callHierarchy/outgoingCalls") || str_eq(method, "textDocument/prepareTypeHierarchy")
        || str_eq(method, "typeHierarchy/supertypes") || str_eq(method, "typeHierarchy/subtypes")
        || str_eq(method, "textDocument/documentHighlight") || str_eq(method, "textDocument/documentLink")
        || str_eq(method, "textDocument/hover") || str_eq(method, "textDocument/codeLens")
        || str_eq(method, "textDocument/foldingRange") || str_eq(method, "textDocument/selectionRange")
        || str_eq(method, "textDocument/documentSymbol") || str_eq(method, "textDocument/semanticTokens/full")
        || str_eq(method, "textDocument/semanticTokens/full/delta") || str_eq(method, "textDocument/semanticTokens/range")
        || str_eq(method, "textDocument/inlayHint") || str_eq(method, "textDocument/inlineValue")
        || str_eq(method, "textDocument/moniker") || str_eq(method, "textDocument/completion")
        || str_eq(method, "textDocument/diagnostic") || str_eq(method, "workspace/diagnostic")
        || str_eq(method, "textDocument/signatureHelp") || str_eq(method, "textDocument/codeAction")
        || str_eq(method, "textDocument/documentColor") || str_eq(method, "textDocument/colorPresentation")
        || str_eq(method, "textDocument/formatting") || str_eq(method, "textDocument/rangeFormatting")
        || str_eq(method, "textDocument/rename") || str_eq(method, "textDocument/prepareRename")
        || str_eq(method, "textDocument/linkedEditingRange") || str_eq(method, "workspace/symbol")
        || str_eq(method, "workspace/executeCommand")
}

} // verus!
