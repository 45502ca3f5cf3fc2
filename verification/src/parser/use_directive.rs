use vstd::prelude::*;
use vstd::string::StringExecFns;
use crate::common::identifier::{identifier_models, Identifier, IdentifierModel};
use crate::common::keyword::Keyword;
use crate::common::operator::Operator;
use crate::common::position::FileSpan;
use crate::common::syntax_error::{CompileError, SyntaxError, SyntaxErrorModel};
use crate::common::text::{joined, lemma_joined_next};
use crate::lexer::token::{token_models, TokenKind, TokenKindModel, TokenModel};
use crate::lexer::token_stream::TokenStream;
use crate::lexer::lexer::{get_tokens, spec_get_tokens, LexedFile};
use crate::parser::parser::{lemma_token_model_at, skip_to_terminator};
use crate::parser::rules::{
    can_read,
    ends_in_eof,
    lemma_next_terminator,
    next_terminator,
    remaining,
    token_at,
    token_fits,
    tokens_fit,
};

verus! {

/// A use directive: the names of its path, from the outermost module
/// inwards, and its span, which runs from `use` to the last name.
#[derive(Debug, PartialEq, Eq)]
pub struct UseDirective {
    pub path: Vec<String>,
    pub position: FileSpan,
}

/// What a `UseDirective` is.
pub struct UseDirectiveModel {
    pub path: Seq<Seq<char>>,
    pub position: FileSpan,
}

impl UseDirectiveModel {
    /// The directive as it is shown: its path with `::` between the names.
    pub open spec fn text(self) -> Seq<char> {
        "Use directive. Module path: "@ + joined(self.path, "::"@)
    }
}

/// The names of a path, each by its characters.
pub open spec fn path_models(path: Seq<String>) -> Seq<Seq<char>> {
    path.map_values(|name: String| name@)
}

impl View for UseDirective {
    type V = UseDirectiveModel;

    open spec fn view(&self) -> UseDirectiveModel {
        UseDirectiveModel { path: path_models(self.path@), position: self.position }
    }
}

impl UseDirective {
    /// The directive as it is shown.
    pub fn to_string(&self) -> (s: String)
        ensures
            s@ == self@.text(),
    {
        let mut s = String::new();
        let ghost names = path_models(self.path@);
        let mut i: usize = 0;
        assert(names.take(0) =~= Seq::empty());
        while i < self.path.len()
            invariant
                i <= self.path.len(),
                names == path_models(self.path@),
                s@ == joined(names.take(i as int), "::"@),
            decreases self.path.len() - i,
        {
            proof {
                lemma_joined_next(names, "::"@, i as int);
            }
            if i > 0 {
                s.append("::");
            }
            s.append(self.path[i].as_str());
            assert(s@ =~= joined(names.take(i + 1), "::"@));
            i += 1;
        }
        assert(names.take(i as int) =~= names);
        let mut shown = String::from_str("Use directive. Module path: ");
        shown.append(s.as_str());
        shown
    }
}

/// How an attempt to parse a use directive ends: none starts here; one
/// was found; or one starts here and is malformed.
pub enum UseOutcome {
    Declined,
    Found(UseDirectiveModel),
    Failed(SyntaxErrorModel),
}

/// How an attempt to parse a use directive ends, and where the cursor
/// stands then.
pub struct UseParse {
    pub cursor: int,
    pub outcome: UseOutcome,
}

/// Why a use directive is refused that has `found` where a name is due,
/// after `last`.
pub open spec fn name_reason(last: TokenKindModel, found: TokenKindModel) -> Seq<char> {
    "Expected identifier after "@ + last.text() + " in use directive but found "@ + found.text()
        + "."@
}

/// Why a use directive is refused that goes on with `found` after a name.
pub open spec fn separator_reason(found: TokenKindModel) -> Seq<char> {
    "Expected :: or ; after identifier in use directive but found "@ + found.text() + "."@
}

/// The rest of a use directive of which `path` is read, a name being due
/// at `at`. A name joins the path. After it, `::` asks for one more name,
/// and `;` ends the directive, which spans from `keyword`, the span of
/// `use`, to the last name. Any other token is an error at that token, on
/// which the cursor stays.
pub open spec fn spec_parse_use_path(
    tokens: Seq<TokenModel>,
    names: Seq<IdentifierModel>,
    at: int,
    path: Seq<Seq<char>>,
    keyword: FileSpan,
) -> UseParse
    decreases remaining(tokens, at),
    when ends_in_eof(tokens)
{
    let name = token_at(tokens, at);
    let after = token_at(tokens, at + 1);
    if !(name.kind is Identifier) {
        UseParse {
            cursor: at,
            outcome: UseOutcome::Failed(
                SyntaxErrorModel::from_token(
                    name,
                    Some(name_reason(token_at(tokens, at - 1).kind, name.kind)),
                ),
            ),
        }
    } else if after.kind == TokenKindModel::Operator(Operator::NameSpaceNav) {
        spec_parse_use_path(
            tokens,
            names,
            at + 2,
            path.push(names[name.kind->Identifier_index as int].name),
            keyword,
        )
    } else if after.kind is EOI {
        UseParse {
            cursor: at + 2,
            outcome: UseOutcome::Found(
                UseDirectiveModel {
                    path: path.push(names[name.kind->Identifier_index as int].name),
                    position: FileSpan::spec_combine(keyword, name.position),
                },
            ),
        }
    } else {
        UseParse {
            cursor: at + 1,
            outcome: UseOutcome::Failed(
                SyntaxErrorModel::from_token(after, Some(separator_reason(after.kind))),
            ),
        }
    }
}

/// A use directive at `cursor`: the keyword `use`, names with `::` between
/// each two, and `;`. Where no `use` stands there, none starts, and the
/// cursor stays.
pub open spec fn spec_parse_use_directive(
    tokens: Seq<TokenModel>,
    names: Seq<IdentifierModel>,
    cursor: int,
) -> UseParse {
    let keyword = token_at(tokens, cursor);
    if keyword.kind == TokenKindModel::Keyword(Keyword::Use) {
        spec_parse_use_path(tokens, names, cursor + 1, Seq::empty(), keyword.position)
    } else {
        UseParse { cursor, outcome: UseOutcome::Declined }
    }
}

/// Whether `found` is the outcome `outcome`.
pub open spec fn use_outcome_is(
    outcome: UseOutcome,
    found: Option<Result<UseDirective, SyntaxError>>,
) -> bool {
    match outcome {
        UseOutcome::Declined => found is None,
        UseOutcome::Found(directive) => found matches Some(Ok(parsed)) && parsed@ == directive,
        UseOutcome::Failed(error) => found matches Some(Err(refused)) && refused@ == error,
    }
}

/// Parses a use directive: the keyword `use`, names with `::` between each
/// two, and `;`. The names are looked up in `identifiers`. Returns nothing
/// where no `use` stands under the cursor, and reads nothing then. A
/// directive that is found is read up to and with its `;`. One that is
/// malformed is read up to the token that should not stand there.
pub fn parse(stream: &mut TokenStream, identifiers: &Vec<Identifier>) -> (found: Option<
    Result<UseDirective, SyntaxError>,
>)
    requires
        old(stream).ends_in_eof(),
        tokens_fit(token_models(old(stream).tokens@), identifiers@.len()),
    ensures
        final(stream).tokens == old(stream).tokens,
        final(stream).cursor() == spec_parse_use_directive(
            token_models(old(stream).tokens@),
            identifier_models(identifiers@),
            old(stream).cursor(),
        ).cursor,
        use_outcome_is(
            spec_parse_use_directive(
                token_models(old(stream).tokens@),
                identifier_models(identifiers@),
                old(stream).cursor(),
            ).outcome,
            found,
        ),
{
    let ghost tokens = token_models(stream.tokens@);
    let ghost names = identifier_models(identifiers@);
    proof {
        lemma_token_model_at(stream, stream.cursor());
    }
    let keyword = match stream.peek(0).kind {
        TokenKind::Keyword(Keyword::Use) => stream.take().position,
        _ => {
            return None;
        },
    };
    let mut path: Vec<String> = Vec::new();
    let ghost whole = spec_parse_use_directive(tokens, names, old(stream).cursor());
    assert(path_models(path@) =~= Seq::empty());
    loop
        invariant
            stream.ends_in_eof(),
            stream.tokens == old(stream).tokens,
            tokens == token_models(stream.tokens@),
            names == identifier_models(identifiers@),
            tokens_fit(tokens, identifiers@.len()),
            whole == spec_parse_use_directive(tokens, names, old(stream).cursor()),
            whole == spec_parse_use_path(
                tokens,
                names,
                stream.cursor(),
                path_models(path@),
                keyword,
            ),
        decreases remaining(tokens, stream.cursor()),
    {
        proof {
            lemma_token_model_at(stream, stream.cursor());
            lemma_token_model_at(stream, stream.cursor() - 1);
            lemma_token_model_at(stream, stream.cursor() + 1);
        }
        let name = stream.peek(0);
        let index = match name.kind {
            TokenKind::Identifier { index } => index,
            _ => {
                let mut reason = String::from_str("Expected identifier after ");
                reason.append(stream.peek(-1).kind.to_string().as_str());
                reason.append(" in use directive but found ");
                reason.append(name.kind.to_string().as_str());
                reason.append(".");
                return Some(Err(SyntaxError::from_token(name, Some(reason.as_str()))));
            },
        };
        let last = name.position;
        let ghost before = path_models(path@);
        path.push(identifiers[index].name.clone());
        assert(path_models(path@) =~= before.push(names[index as int].name));
        stream.skip(1);
        proof {
            lemma_token_model_at(stream, stream.cursor());
        }
        let after = stream.peek(0);
        if after.kind.is_operator(Operator::NameSpaceNav) {
            stream.skip(1);
        } else if after.kind.is_end_of_instruction() {
            stream.skip(1);
            return Some(Ok(UseDirective { path, position: FileSpan::combine(&keyword, &last) }));
        } else {
            let mut reason = String::from_str(
                "Expected :: or ; after identifier in use directive but found ",
            );
            reason.append(after.kind.to_string().as_str());
            reason.append(".");
            return Some(Err(SyntaxError::from_token(after, Some(reason.as_str()))));
        }
    }
}

/// The use directives of a file and the errors in them, with the tokens
/// they were read from.
#[derive(Debug)]
pub struct ParserResult {
    pub nodes: Vec<UseDirective>,
    pub errors: Vec<CompileError>,
    pub tokens: TokenStream,
}

/// The use directives of a file and the errors in them.
pub struct UseDirectives {
    pub nodes: Seq<UseDirectiveModel>,
    pub errors: Seq<SyntaxErrorModel>,
}

/// The directives of a sequence, each by its model.
pub open spec fn directive_models(nodes: Seq<UseDirective>) -> Seq<UseDirectiveModel> {
    nodes.map_values(|node: UseDirective| node@)
}

/// The errors of a sequence, each by its model.
pub open spec fn compile_error_models(errors: Seq<CompileError>) -> Seq<SyntaxErrorModel> {
    errors.map_values(|error: CompileError| error@)
}

/// The path of a use directive is read forwards only and within the
/// tokens, and ends in a directive or in an error.
pub proof fn lemma_use_path_advances(
    tokens: Seq<TokenModel>,
    names: Seq<IdentifierModel>,
    at: int,
    path: Seq<Seq<char>>,
    keyword: FileSpan,
)
    requires
        ends_in_eof(tokens),
        0 <= at <= tokens.len(),
    ensures
        at <= spec_parse_use_path(tokens, names, at, path, keyword).cursor <= tokens.len(),
        !(spec_parse_use_path(tokens, names, at, path, keyword).outcome is Declined),
    decreases remaining(tokens, at),
{
    let name = token_at(tokens, at);
    let after = token_at(tokens, at + 1);
    if name.kind is Identifier && after.kind == TokenKindModel::Operator(Operator::NameSpaceNav) {
        lemma_use_path_advances(
            tokens,
            names,
            at + 2,
            path.push(names[name.kind->Identifier_index as int].name),
            keyword,
        );
    }
}

/// The use directives from `cursor` to the end of the file, after those of
/// `found`. A directive that is found joins the nodes, one that is
/// malformed leaves its error, and the search goes on where it ended.
/// Where no directive starts, the tokens up to the next terminator and the
/// terminator are passed over.
pub open spec fn spec_collect_use_directives(
    tokens: Seq<TokenModel>,
    names: Seq<IdentifierModel>,
    cursor: int,
    found: UseDirectives,
) -> UseDirectives
    decreases remaining(tokens, cursor),
    when ends_in_eof(tokens) && 0 <= cursor
{
    if !can_read(tokens, cursor) {
        found
    } else {
        proof {
            lemma_use_path_advances(
                tokens,
                names,
                cursor + 1,
                Seq::empty(),
                token_at(tokens, cursor).position,
            );
            lemma_next_terminator(tokens, cursor);
        }
        let directive = spec_parse_use_directive(tokens, names, cursor);
        match directive.outcome {
            UseOutcome::Declined => spec_collect_use_directives(
                tokens,
                names,
                next_terminator(tokens, cursor) + 1,
                found,
            ),
            UseOutcome::Found(node) => spec_collect_use_directives(
                tokens,
                names,
                directive.cursor,
                UseDirectives { nodes: found.nodes.push(node), ..found },
            ),
            UseOutcome::Failed(error) => spec_collect_use_directives(
                tokens,
                names,
                directive.cursor,
                UseDirectives { errors: found.errors.push(error), ..found },
            ),
        }
    }
}

/// Collects the use directives of a scanned file, from the cursor to the
/// end of the file, and the errors in them. Statements that are no use
/// directive are passed over.
pub fn parse_use_directives(lexed: LexedFile) -> (result: ParserResult)
    requires
        lexed.stream.ends_in_eof(),
        tokens_fit(lexed@.tokens, lexed.identifiers@.len()),
    ensures
        result.tokens.tokens == lexed.stream.tokens,
        (UseDirectives {
            nodes: directive_models(result.nodes@),
            errors: compile_error_models(result.errors@),
        }) == spec_collect_use_directives(
            lexed@.tokens,
            lexed@.identifiers,
            lexed.stream.cursor(),
            UseDirectives { nodes: Seq::empty(), errors: Seq::empty() },
        ),
{
    let LexedFile { file_name, stream, errors, identifiers } = lexed;
    let mut stream = stream;
    let mut nodes: Vec<UseDirective> = Vec::new();
    let mut failed: Vec<CompileError> = Vec::new();
    let ghost tokens = token_models(stream.tokens@);
    let ghost names = identifier_models(identifiers@);
    let ghost whole = spec_collect_use_directives(
        tokens,
        names,
        stream.cursor(),
        UseDirectives { nodes: Seq::empty(), errors: Seq::empty() },
    );
    assert(directive_models(nodes@) =~= Seq::empty());
    assert(compile_error_models(failed@) =~= Seq::empty());
    loop
        invariant
            stream.ends_in_eof(),
            stream.tokens == lexed.stream.tokens,
            tokens == token_models(stream.tokens@),
            names == identifier_models(identifiers@),
            tokens_fit(tokens, identifiers@.len()),
            whole == spec_collect_use_directives(
                tokens,
                names,
                stream.cursor(),
                UseDirectives {
                    nodes: directive_models(nodes@),
                    errors: compile_error_models(failed@),
                },
            ),
        ensures
            whole == (UseDirectives {
                nodes: directive_models(nodes@),
                errors: compile_error_models(failed@),
            }),
        decreases remaining(tokens, stream.cursor()),
    {
        if !stream.can_read() {
            break ;
        }
        proof {
            lemma_use_path_advances(
                tokens,
                names,
                stream.cursor() + 1,
                Seq::empty(),
                token_at(tokens, stream.cursor()).position,
            );
        }
        let ghost found = directive_models(nodes@);
        let ghost refused = compile_error_models(failed@);
        match parse(&mut stream, &identifiers) {
            None => {
                skip_to_terminator(&mut stream, true);
            },
            Some(Ok(node)) => {
                nodes.push(node);
                assert(directive_models(nodes@) =~= found.push(node@));
            },
            Some(Err(error)) => {
                let error = CompileError::Syntax(error);
                failed.push(error);
                assert(compile_error_models(failed@) =~= refused.push(error@));
            },
        }
    }
    ParserResult { nodes, errors: failed, tokens: stream }
}

/// Scans `content`, the text of the file `file_name`, and collects its use
/// directives and the errors in them.
pub fn parse_file(file_name: &str, content: &str) -> (result: ParserResult)
    requires
        content@.len() < usize::MAX,
    ensures
        token_models(result.tokens.tokens@) == spec_get_tokens(content@).tokens,
        (UseDirectives {
            nodes: directive_models(result.nodes@),
            errors: compile_error_models(result.errors@),
        }) == spec_collect_use_directives(
            spec_get_tokens(content@).tokens,
            spec_get_tokens(content@).identifiers,
            0,
            UseDirectives { nodes: Seq::empty(), errors: Seq::empty() },
        ),
{
    let lexed = get_tokens(file_name, content);
    proof {
        let tokens = lexed@.tokens;
        assert(token_models(lexed.stream.tokens@).len() == lexed.stream.tokens@.len());
        assert(identifier_models(lexed.identifiers@).len() == lexed.identifiers@.len());
        assert forall|i: int| 0 <= i < tokens.len() implies token_fits(
            #[trigger] tokens[i],
            lexed.identifiers@.len(),
        ) by {}
    }
    parse_use_directives(lexed)
}

} // verus!
