use vstd::prelude::*;
use vstd::string::StringExecFns;
use crate::common::identifier::{identifier_models, names_distinct, Identifier, IdentifierModel};
use crate::common::position::FileSpan;
use crate::common::syntax_error::{error_models, SyntaxError, SyntaxErrorModel};
use crate::common::text::{joined, lemma_joined_next};
use crate::lexer::lexer::{get_tokens, spec_get_tokens, LexModel, LexedFile};
use crate::lexer::token::{token_models, Token};
use crate::lexer::token_stream::TokenStream;
use crate::parser::ast_node::{node_models, AstNode, AstNodeModel, ParsingResult};
use crate::parser::rules::{
    arena_wf,
    ends_in_eof,
    extends,
    follows,
    lemma_first_terminator,
    lemma_next_terminator,
    next_terminator,
    recover,
    remaining,
    spec_parse_statements,
    token_at,
    token_fits,
    tokens_fit,
    FileParse,
    Parse,
    ParseState,
};
use crate::parser::statement;

verus! {

/// The syntax tree of one file: its nodes in one sequence, the identifier
/// table, the errors, and the indices of the nodes of the statements at
/// the top of the file.
#[derive(Debug)]
pub struct FileAst {
    pub file_name: String,
    pub nodes: Vec<AstNode>,
    pub errors: Vec<SyntaxError>,
    pub identifiers: Vec<Identifier>,
    pub root_nodes: Vec<usize>,
}

/// What a `FileAst` is, but for its name.
pub struct FileAstModel {
    pub nodes: Seq<AstNodeModel>,
    pub errors: Seq<SyntaxErrorModel>,
    pub identifiers: Seq<IdentifierModel>,
    pub root_nodes: Seq<usize>,
}

impl FileAstModel {
    /// The statements at the top of the file are nodes of the tree.
    pub open spec fn roots_in_range(self) -> bool {
        forall|k: int|
            0 <= k < self.root_nodes.len() ==> (#[trigger] self.root_nodes[k]) < self.nodes.len()
    }

    /// The nodes are in order, and the statements at the top of the file
    /// are nodes of the tree, in the order of the file.
    pub open spec fn wf(self) -> bool {
        &&& arena_wf(self.nodes, self.identifiers.len())
        &&& self.roots_in_range()
        &&& forall|j: int, k: int|
            0 <= j < k < self.root_nodes.len() ==> self.root_nodes[j] < self.root_nodes[k]
    }

    /// The names of the statements at the top of the file, in order.
    pub open spec fn root_texts(self) -> Seq<Seq<char>> {
        Seq::new(self.root_nodes.len(), |k: int| self.nodes[self.root_nodes[k] as int].text())
    }

    /// The tree as it is shown: the names of the statements at the top of
    /// the file, one on each line.
    pub open spec fn text(self) -> Seq<char> {
        joined(self.root_texts(), "\n"@)
    }
}

impl View for FileAst {
    type V = FileAstModel;

    open spec fn view(&self) -> FileAstModel {
        FileAstModel {
            nodes: node_models(self.nodes@),
            errors: error_models(self.errors@),
            identifiers: identifier_models(self.identifiers@),
            root_nodes: self.root_nodes@,
        }
    }
}

/// What a parse has reached that reads `stream` and fills `file_ast`.
pub open spec fn state_of(stream: &TokenStream, file_ast: &FileAst) -> ParseState {
    ParseState {
        cursor: stream.cursor(),
        nodes: file_ast@.nodes,
        identifiers: file_ast@.identifiers,
        errors: file_ast@.errors,
    }
}

/// Whether `stream` can be parsed into `file_ast`: the tokens end in the
/// end-of-file token and fit the identifier table, the cursor stands no
/// further than two places behind the end-of-file token, which is a place
/// that a `usize` can count to, and the nodes that are there are in order.
pub open spec fn ready(stream: &TokenStream, file_ast: &FileAst) -> bool {
    &&& stream.ends_in_eof()
    &&& stream.cursor() <= stream.tokens.len() + 1
    &&& stream.tokens.len() + 2 <= usize::MAX
    &&& tokens_fit(token_models(stream.tokens@), file_ast.identifiers@.len())
    &&& arena_wf(file_ast@.nodes, file_ast.identifiers@.len())
}

/// Whether a step of a parse that started with `stream_before` and
/// `ast_before` and ended in `result`, `stream` and `ast` is the step
/// `parse`. The tokens, the file's name and the nodes at the top of the
/// file are left as they were; the rest is as `parse` says, and extends
/// what was there.
pub open spec fn reached(
    parse: Parse,
    result: ParsingResult,
    stream_before: &TokenStream,
    ast_before: &FileAst,
    stream: &TokenStream,
    ast: &FileAst,
) -> bool {
    &&& stream.tokens == stream_before.tokens
    &&& ast.file_name == ast_before.file_name
    &&& ast.root_nodes == ast_before.root_nodes
    &&& ready(stream, ast)
    &&& parse.result == result
    &&& parse.state == state_of(stream, ast)
    &&& extends(
        state_of(stream_before, ast_before),
        parse.state,
    )
}

/// Whether an attempt to parse a construct that started with
/// `stream_before` and `ast_before` and ended in `result`, `stream` and
/// `ast` is the attempt `parse`, and reads tokens as every attempt does.
pub open spec fn parsed_as(
    parse: Parse,
    result: ParsingResult,
    stream_before: &TokenStream,
    ast_before: &FileAst,
    stream: &TokenStream,
    ast: &FileAst,
) -> bool {
    &&& reached(parse, result, stream_before, ast_before, stream, ast)
    &&& follows(token_models(stream_before.tokens@), state_of(stream_before, ast_before), parse)
}

/// The token of the stream at `index` is the token of its models there.
pub proof fn lemma_token_model_at(stream: &TokenStream, index: int)
    ensures
        stream.tokens.len() > 0 ==> stream.token_at(index)@ == token_at(
            token_models(stream.tokens@),
            index,
        ),
        stream.ends_in_eof() == ends_in_eof(token_models(stream.tokens@)),
{
}

/// Moves the cursor on to the next statement terminator, and behind it
/// where `inclusive` is set.
pub fn skip_to_terminator(stream: &mut TokenStream, inclusive: bool)
    requires
        old(stream).ends_in_eof(),
        old(stream).cursor() < usize::MAX,
    ensures
        final(stream).tokens == old(stream).tokens,
        final(stream).cursor() == if inclusive {
            next_terminator(token_models(old(stream).tokens@), old(stream).cursor()) + 1
        } else {
            next_terminator(token_models(old(stream).tokens@), old(stream).cursor())
        },
        final(stream).cursor() >= old(stream).cursor(),
        inclusive ==> final(stream).cursor() > old(stream).cursor(),
{
    let ghost tokens = token_models(stream.tokens@);
    let ghost from = stream.cursor();
    let ghost searched = *stream;
    let is_terminator = |token: &Token| -> (terminator: bool)
        ensures
            terminator == token@.kind.is_terminator(),
        { token.kind.is_terminator() };
    stream.skip_until(is_terminator, inclusive);
    proof {
        let stop = choose|stop: int|
            {
                &&& #[trigger] searched.search_ends(is_terminator, stop)
                &&& stream.cursor() == if inclusive {
                    stop + 1
                } else {
                    stop
                }
            };
        assert forall|i: int| from <= i < stop implies !(#[trigger] token_at(
            tokens,
            i,
        )).kind.is_terminator() by {
            lemma_token_model_at(&searched, i);
            assert(!searched.token_at(i)@.kind.is_terminator());
        }
        lemma_token_model_at(&searched, stop);
        lemma_first_terminator(tokens, from, stop);
        lemma_next_terminator(tokens, from);
    }
}

/// Gives up the statement under the cursor, where a token stands: reads
/// the token there, every token up to the next terminator, and the
/// terminator, and adds an error with `reason` that spans from the first
/// token read to the terminator.
pub fn give_up(stream: &mut TokenStream, file_ast: &mut FileAst, reason: &str)
    requires
        ready(old(stream), old(file_ast)),
        old(stream).cursor() < old(stream).tokens.len(),
    ensures
        final(stream).tokens == old(stream).tokens,
        final(file_ast).file_name == old(file_ast).file_name,
        final(file_ast).root_nodes == old(file_ast).root_nodes,
        final(file_ast).nodes == old(file_ast).nodes,
        final(file_ast).identifiers == old(file_ast).identifiers,
        ready(final(stream), final(file_ast)),
        state_of(final(stream), final(file_ast)) == recover(
            token_models(old(stream).tokens@),
            state_of(old(stream), old(file_ast)),
            reason@,
        ),
        final(stream).cursor() > old(stream).cursor() + 1,
        old(stream).cursor() < old(stream).tokens.len() - 1 ==> final(stream).cursor() <= old(stream).tokens.len(),
{
    proof {
        lemma_token_model_at(stream, stream.cursor());
        lemma_next_terminator(token_models(stream.tokens@), stream.cursor() + 1);
    }
    let begin = stream.take().position;
    skip_to_terminator(stream, false);
    proof {
        lemma_token_model_at(stream, stream.cursor());
    }
    let end = stream.take().position;
    let ghost errors = error_models(file_ast.errors@);
    let error = SyntaxError { position: FileSpan::combine(&begin, &end), reason: String::from_str(reason) };
    file_ast.errors.push(error);
    assert(error_models(file_ast.errors@) =~= errors.push(error@));
}

/// The syntax tree of a scanned file. After a lexical error nothing is
/// parsed: the tree has the scan's errors and identifiers and no node.
/// Else the statements of the file are parsed from its first token on.
pub open spec fn spec_parse_file(lexed: LexModel) -> FileAstModel {
    if lexed.errors.len() > 0 {
        FileAstModel {
            nodes: Seq::empty(),
            errors: lexed.errors,
            identifiers: lexed.identifiers,
            root_nodes: Seq::empty(),
        }
    } else {
        let parsed = spec_parse_statements(
            lexed.tokens,
            ParseState {
                cursor: 0,
                nodes: Seq::empty(),
                identifiers: lexed.identifiers,
                errors: lexed.errors,
            },
            Seq::empty(),
        );
        FileAstModel {
            nodes: parsed.state.nodes,
            errors: parsed.state.errors,
            identifiers: parsed.state.identifiers,
            root_nodes: parsed.root_nodes,
        }
    }
}

impl FileAst {
    /// Scans and parses `content`, the text of the file `file_name`. The
    /// text has to be short enough for the places up to two behind the
    /// end-of-file token to be counted in a `usize`.
    pub fn new(file_name: &str, content: &str) -> (file_ast: Self)
        requires
            content@.len() + 3 <= usize::MAX,
        ensures
            file_ast@ == spec_parse_file(spec_get_tokens(content@)),
            file_ast@.wf(),
            names_distinct(file_ast@.identifiers),
            file_ast.file_name@ == file_name@,
    {
        let lexed = get_tokens(file_name, content);
        proof {
            let tokens = lexed@.tokens;
            assert(token_models(lexed.stream.tokens@).len() == lexed.stream.tokens@.len());
            assert forall|i: int| 0 <= i < tokens.len() implies token_fits(
                #[trigger] tokens[i],
                lexed.identifiers@.len(),
            ) by {
                assert(identifier_models(lexed.identifiers@).len() == lexed.identifiers@.len());
            }
        }
        Self::parse(lexed)
    }

    /// The tree as it is shown: the names of the statements at the top of
    /// the file, one on each line.
    pub fn to_string(&self) -> (s: String)
        requires
            self@.roots_in_range(),
        ensures
            s@ == self@.text(),
    {
        let mut s = String::new();
        let mut k: usize = 0;
        assert(node_models(self.nodes@).len() == self.nodes@.len());
        assert(self@.root_texts().take(0) =~= Seq::empty());
        while k < self.root_nodes.len()
            invariant
                k <= self.root_nodes.len(),
                self@.roots_in_range(),
                s@ == joined(self@.root_texts().take(k as int), "\n"@),
            decreases self.root_nodes.len() - k,
        {
            let ghost texts = self@.root_texts();
            assert(node_models(self.nodes@).len() == self.nodes@.len());
            proof {
                lemma_joined_next(texts, "\n"@, k as int);
            }
            if k > 0 {
                s.append("\n");
            }
            let root = self.root_nodes[k];
            s.append(self.nodes[root].to_string().as_str());
            assert(s@ =~= joined(texts.take(k + 1), "\n"@));
            k += 1;
        }
        assert(self@.root_texts().take(k as int) =~= self@.root_texts());
        s
    }

    /// Parses a scanned file whose cursor stands on its first token. The
    /// tokens have to be few enough for the places up to two behind the
    /// end-of-file token to be counted in a `usize`.
    pub fn parse(lexed: LexedFile) -> (file_ast: Self)
        requires
            lexed.stream.cursor() == 0,
            lexed.stream.tokens.len() + 2 <= usize::MAX,
            tokens_fit(lexed@.tokens, lexed.identifiers@.len()),
        ensures
            file_ast@ == spec_parse_file(lexed@),
            file_ast@.wf(),
            file_ast.file_name == lexed.file_name,
            file_ast@.identifiers.len() == lexed@.identifiers.len(),
            forall|i: int|
                0 <= i < lexed@.identifiers.len() ==> (#[trigger] file_ast@.identifiers[i]).name
                    == lexed@.identifiers[i].name,
            lexed@.errors.len() > 0 ==> file_ast@.errors == lexed@.errors,
    {
        let ghost model = lexed@;
        proof {
            lemma_token_model_at(&lexed.stream, 0);
        }
        let LexedFile { file_name, stream, errors, identifiers } = lexed;
        let mut stream = stream;
        let mut file_ast = FileAst {
            file_name,
            nodes: Vec::new(),
            errors,
            identifiers,
            root_nodes: Vec::new(),
        };
        assert(node_models(file_ast.nodes@) =~= Seq::empty());
        if !file_ast.errors.is_empty() {
            assert(error_models(file_ast.errors@).len() == file_ast.errors@.len());
            return file_ast;
        }
        assert(error_models(file_ast.errors@).len() == file_ast.errors@.len());
        let ghost tokens = model.tokens;
        let ghost start = state_of(&stream, &file_ast);
        assert(start.identifiers == model.identifiers);
        loop
            invariant
                stream.ends_in_eof(),
                stream.cursor() <= stream.tokens.len() + 2,
                stream.tokens.len() + 2 <= usize::MAX,
                tokens_fit(tokens, file_ast.identifiers@.len()),
                arena_wf(file_ast@.nodes, file_ast.identifiers@.len()),
                tokens == token_models(stream.tokens@),
                file_ast.file_name == lexed.file_name,
                file_ast@.wf(),
                extends(start, state_of(&stream, &file_ast)),
                spec_parse_statements(tokens, state_of(&stream, &file_ast), file_ast.root_nodes@)
                    == spec_parse_statements(tokens, start, Seq::empty()),
            ensures
                (FileParse {
                    state: state_of(&stream, &file_ast),
                    root_nodes: file_ast.root_nodes@,
                }) == spec_parse_statements(tokens, start, Seq::empty()),
            decreases remaining(tokens, stream.cursor()),
        {
            if !stream.can_read() {
                break ;
            }
            let ghost before = file_ast@;
            proof {
                lemma_next_terminator(tokens, stream.cursor() + 1);
            }
            match statement::parse(&mut stream, &mut file_ast) {
                ParsingResult::Parsed => {
                    assert(node_models(file_ast.nodes@).len() == file_ast.nodes@.len());
                    let root = file_ast.nodes.len() - 1;
                    file_ast.root_nodes.push(root);
                    assert forall|j: int, k: int|
                        0 <= j < k < file_ast@.root_nodes.len() implies file_ast@.root_nodes[j]
                        < file_ast@.root_nodes[k] by {
                        if k == before.root_nodes.len() {
                            assert(before.root_nodes[j] < before.nodes.len());
                        } else {
                            assert(before.root_nodes[j] < before.root_nodes[k]);
                        }
                    }
                    assert forall|k: int| 0 <= k < file_ast@.root_nodes.len() implies (
                    #[trigger] file_ast@.root_nodes[k]) < file_ast@.nodes.len() by {
                        if k < before.root_nodes.len() {
                            assert(before.root_nodes[k] < before.nodes.len());
                        }
                    }
                },
                ParsingResult::Error => {
                    proof {
                        lemma_next_terminator(tokens, stream.cursor());
                    }
                    skip_to_terminator(&mut stream, true);
                    assert forall|k: int| 0 <= k < file_ast@.root_nodes.len() implies (
                    #[trigger] file_ast@.root_nodes[k]) < file_ast@.nodes.len() by {
                        assert(before.root_nodes[k] < before.nodes.len());
                    }
                },
                ParsingResult::Other => {
                    give_up(&mut stream, &mut file_ast, "cannot parse this node");
                    assert forall|k: int| 0 <= k < file_ast@.root_nodes.len() implies (
                    #[trigger] file_ast@.root_nodes[k]) < file_ast@.nodes.len() by {
                        assert(before.root_nodes[k] < before.nodes.len());
                    }
                },
            }
        }
        file_ast
    }
}

} // verus!
