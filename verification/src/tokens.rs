//! Token streams: the model of emitted code.
//!
//! A [`TokenStream`] holds trees: a tree is a single token or a group of trees
//! in brackets. Its value in contracts is the flat sequence of its tokens, in
//! which a group is written as its opening bracket, the tokens of the group,
//! and its closing bracket. Flat sequences concatenate, which is all that the
//! emitters do; and the flat sequence of every stream is well nested.
use vstd::prelude::*;

verus! {

/// The bracket pair around a group of tokens.
#[derive(Clone, Copy, PartialEq, Eq, Debug, Structural)]
pub enum Delimiter {
    /// `( ... )`
    Parenthesis,
    /// `{ ... }`
    Brace,
    /// `[ ... ]`
    Bracket,
}

/// Whether a punctuation character joins the one that follows it into a single
/// operator, as the first `:` of `::` does.
#[derive(Clone, Copy, PartialEq, Eq, Debug, Structural)]
pub enum Spacing {
    Alone,
    Joint,
}

/// One token of the flat form of a stream.
#[derive(Clone, PartialEq, Eq, Debug)]
pub enum Token {
    /// An identifier or keyword.
    Ident(String),
    /// A single punctuation character.
    Punct(char, Spacing),
    /// A literal, by its source text.
    Literal(String),
    /// Source text that is carried through unread, such as a type. It stands
    /// for the tokens that the text lexes to, which are well nested on their
    /// own.
    Fragment(String),
    /// The opening bracket of a group.
    Open(Delimiter),
    /// The closing bracket of a group.
    Close(Delimiter),
}

/// The mathematical value of a [`Token`].
pub enum TokenView {
    Ident(Seq<char>),
    Punct(char, Spacing),
    Literal(Seq<char>),
    Fragment(Seq<char>),
    Open(Delimiter),
    Close(Delimiter),
}

impl View for Token {
    type V = TokenView;

    open spec fn view(&self) -> TokenView {
        match self {
            Token::Ident(name) => TokenView::Ident(name@),
            Token::Punct(ch, spacing) => TokenView::Punct(*ch, *spacing),
            Token::Literal(text) => TokenView::Literal(text@),
            Token::Fragment(text) => TokenView::Fragment(text@),
            Token::Open(delimiter) => TokenView::Open(*delimiter),
            Token::Close(delimiter) => TokenView::Close(*delimiter),
        }
    }
}

/// The values of a sequence of tokens, in order.
pub open spec fn token_views(tokens: Seq<Token>) -> Seq<TokenView> {
    tokens.map_values(|token: Token| token@)
}

/// The stream that holds one identifier.
pub open spec fn ident(name: Seq<char>) -> Seq<TokenView> {
    seq![TokenView::Ident(name)]
}

/// The stream that holds one punctuation character that stands alone.
pub open spec fn punct(ch: char) -> Seq<TokenView> {
    seq![TokenView::Punct(ch, Spacing::Alone)]
}

/// The stream that holds the two-character operator `first second`.
pub open spec fn operator(first: char, second: char) -> Seq<TokenView> {
    seq![TokenView::Punct(first, Spacing::Joint), TokenView::Punct(second, Spacing::Alone)]
}

/// The path separator `::`.
pub open spec fn path_sep() -> Seq<TokenView> {
    operator(':', ':')
}

/// The arrow `->` before a return type.
pub open spec fn arrow() -> Seq<TokenView> {
    operator('-', '>')
}

/// The arrow `=>` of a match arm.
pub open spec fn fat_arrow() -> Seq<TokenView> {
    operator('=', '>')
}

/// The lifetime `'name`.
pub open spec fn lifetime(name: Seq<char>) -> Seq<TokenView> {
    seq![TokenView::Punct('\'', Spacing::Joint), TokenView::Ident(name)]
}

/// The stream that holds one literal.
pub open spec fn literal(text: Seq<char>) -> Seq<TokenView> {
    seq![TokenView::Literal(text)]
}

/// The stream for carried source text: nothing for empty text, else one
/// fragment token.
pub open spec fn fragment(text: Seq<char>) -> Seq<TokenView> {
    if text.len() == 0 {
        Seq::empty()
    } else {
        seq![TokenView::Fragment(text)]
    }
}

/// The tokens `inner` enclosed in the brackets of `delimiter`.
pub open spec fn group(delimiter: Delimiter, inner: Seq<TokenView>) -> Seq<TokenView> {
    seq![TokenView::Open(delimiter)] + inner + seq![TokenView::Close(delimiter)]
}

/// The brackets that are open after reading `tokens`, innermost last, when
/// the brackets in `open` were open before. `None` when a closing bracket
/// meets no open bracket of its kind.
pub open spec fn scan(tokens: Seq<TokenView>, open: Seq<Delimiter>) -> Option<Seq<Delimiter>>
    decreases tokens.len(),
{
    if tokens.len() == 0 {
        Some(open)
    } else {
        match scan(tokens.drop_last(), open) {
            None => None,
            Some(stack) => match tokens.last() {
                TokenView::Open(delimiter) => Some(stack.push(delimiter)),
                TokenView::Close(delimiter) => if stack.len() > 0 && stack.last() == delimiter {
                    Some(stack.drop_last())
                } else {
                    None
                },
                _ => Some(stack),
            },
        }
    }
}

/// Every bracket of `tokens` is closed by a bracket of its own kind, in
/// nesting order, and nothing is closed that was not opened.
pub open spec fn well_nested(tokens: Seq<TokenView>) -> bool {
    scan(tokens, Seq::empty()) == Some(Seq::<Delimiter>::empty())
}

/// Reading `first + second` is reading `first`, then `second`.
pub proof fn lemma_scan_concat(first: Seq<TokenView>, second: Seq<TokenView>, open: Seq<Delimiter>)
    ensures
        scan(first + second, open) == match scan(first, open) {
            None => None,
            Some(stack) => scan(second, stack),
        },
    decreases second.len(),
{
    if second.len() == 0 {
        assert(first + second =~= first);
    } else {
        assert((first + second).drop_last() =~= first + second.drop_last());
        assert((first + second).last() == second.last());
        lemma_scan_concat(first, second.drop_last(), open);
    }
}

/// Brackets that were open before stay untouched below a run of tokens that
/// can be read on its own.
pub proof fn lemma_scan_frame(
    tokens: Seq<TokenView>,
    below: Seq<Delimiter>,
    open: Seq<Delimiter>,
)
    requires
        scan(tokens, open) is Some,
    ensures
        scan(tokens, below + open) == Some(below + scan(tokens, open).unwrap()),
    decreases tokens.len(),
{
    if tokens.len() > 0 {
        lemma_scan_frame(tokens.drop_last(), below, open);
        let stack = scan(tokens.drop_last(), open).unwrap();
        match tokens.last() {
            TokenView::Open(delimiter) => {
                assert((below + stack).push(delimiter) =~= below + stack.push(delimiter));
            },
            TokenView::Close(delimiter) => {
                assert((below + stack).drop_last() =~= below + stack.drop_last());
            },
            _ => {},
        }
    }
}

/// Two well nested streams, one after the other, are well nested.
pub proof fn lemma_well_nested_concat(first: Seq<TokenView>, second: Seq<TokenView>)
    requires
        well_nested(first),
        well_nested(second),
    ensures
        well_nested(first + second),
{
    lemma_scan_concat(first, second, Seq::empty());
}

/// A well nested stream in brackets is well nested.
pub proof fn lemma_well_nested_group(delimiter: Delimiter, inner: Seq<TokenView>)
    requires
        well_nested(inner),
    ensures
        well_nested(group(delimiter, inner)),
{
    let opening = seq![TokenView::Open(delimiter)];
    let closing = seq![TokenView::Close(delimiter)];
    let stack = seq![delimiter];
    assert(scan(opening, Seq::empty()) == Some(stack)) by {
        reveal_with_fuel(scan, 2);
        assert(opening.drop_last() =~= Seq::<TokenView>::empty());
        assert(Seq::<Delimiter>::empty().push(delimiter) =~= stack);
    }
    assert(scan(inner, stack) == Some(stack)) by {
        lemma_scan_frame(inner, stack, Seq::empty());
        assert(stack + Seq::<Delimiter>::empty() =~= stack);
    }
    assert(scan(closing, stack) == Some(Seq::<Delimiter>::empty())) by {
        reveal_with_fuel(scan, 2);
        assert(closing.drop_last() =~= Seq::<TokenView>::empty());
        assert(stack.drop_last() =~= Seq::<Delimiter>::empty());
    }
    lemma_scan_concat(opening, inner, Seq::empty());
    lemma_scan_concat(opening + inner, closing, Seq::empty());
}

/// A stream of one token that is no bracket is well nested.
pub proof fn lemma_well_nested_plain(token: TokenView)
    requires
        !(token is Open),
        !(token is Close),
    ensures
        well_nested(seq![token]),
{
    reveal_with_fuel(scan, 2);
    assert(seq![token].drop_last() =~= Seq::<TokenView>::empty());
}

/// The streams of `parts`, one after the other.
pub open spec fn concat_all(parts: Seq<Seq<TokenView>>) -> Seq<TokenView>
    decreases parts.len(),
{
    if parts.len() == 0 {
        Seq::empty()
    } else {
        concat_all(parts.drop_last()) + parts.last()
    }
}

/// The streams of `parts` with a comma between each two neighbours.
pub open spec fn punctuated(parts: Seq<Seq<TokenView>>) -> Seq<TokenView>
    decreases parts.len(),
{
    if parts.len() == 0 {
        Seq::empty()
    } else if parts.len() == 1 {
        parts.last()
    } else {
        punctuated(parts.drop_last()) + punct(',') + parts.last()
    }
}

/// The streams of `parts` with a comma after each.
pub open spec fn terminated(parts: Seq<Seq<TokenView>>) -> Seq<TokenView>
    decreases parts.len(),
{
    if parts.len() == 0 {
        Seq::empty()
    } else {
        terminated(parts.drop_last()) + parts.last() + punct(',')
    }
}

/// The values of a sequence of streams, in order.
pub open spec fn stream_views(streams: Seq<TokenStream>) -> Seq<Seq<TokenView>> {
    streams.map_values(|stream: TokenStream| stream@)
}

/// Where the stream of index `index` begins in a list of `parts` in which
/// `gap` tokens stand between each two neighbours.
pub open spec fn offset(parts: Seq<Seq<TokenView>>, gap: nat, index: int) -> int
    decreases index,
{
    if index <= 0 {
        0
    } else {
        offset(parts, gap, index - 1) + parts[index - 1].len() + gap
    }
}

/// The tokens of `part` stand in `stream` from the position `start` on.
pub open spec fn stands_at(stream: Seq<TokenView>, part: Seq<TokenView>, start: int) -> bool {
    &&& 0 <= start
    &&& start + part.len() <= stream.len()
    &&& stream.subrange(start, start + part.len()) == part
}

/// In `stream`, which lists `parts` with `gap` tokens between neighbours,
/// the parts of the indices `i` and `j` stand whole and unchanged, the first
/// before the second.
pub open spec fn in_order(
    stream: Seq<TokenView>,
    parts: Seq<Seq<TokenView>>,
    gap: nat,
    i: int,
    j: int,
) -> bool {
    &&& stands_at(stream, parts[i], offset(parts, gap, i))
    &&& stands_at(stream, parts[j], offset(parts, gap, j))
    &&& offset(parts, gap, i) + parts[i].len() + gap <= offset(parts, gap, j)
}

/// Later parts begin after earlier parts end.
pub proof fn lemma_offset_increases(parts: Seq<Seq<TokenView>>, gap: nat, i: int, j: int)
    requires
        0 <= i < j,
    ensures
        offset(parts, gap, i) + parts[i].len() + gap <= offset(parts, gap, j),
    decreases j,
{
    if i + 1 < j {
        lemma_offset_increases(parts, gap, i, j - 1);
    }
}

/// Where a part begins depends only on the parts before it.
pub proof fn lemma_offset_prefix(parts: Seq<Seq<TokenView>>, gap: nat, count: int, index: int)
    requires
        0 <= index <= count <= parts.len(),
    ensures
        offset(parts.take(count), gap, index) == offset(parts, gap, index),
    decreases index,
{
    if index > 0 {
        lemma_offset_prefix(parts, gap, count, index - 1);
    }
}

/// A list without separators holds each part at its offset.
pub proof fn lemma_concat_all_holds(parts: Seq<Seq<TokenView>>, index: int)
    requires
        0 <= index < parts.len(),
    ensures
        concat_all(parts).len() == offset(parts, 0, parts.len() as int),
        stands_at(concat_all(parts), parts[index], offset(parts, 0, index)),
    decreases parts.len(),
{
    let front = parts.drop_last();
    let last = parts.len() - 1;
    lemma_offset_prefix(parts, 0, last, last);
    if front.len() > 0 {
        lemma_concat_all_holds(front, 0);
    }
    assert(concat_all(parts) == concat_all(front) + parts[last]);
    assert(concat_all(front).len() == offset(parts, 0, last));
    if index < last {
        lemma_concat_all_holds(front, index);
        lemma_offset_prefix(parts, 0, last, index);
        assert(concat_all(parts).subrange(
            offset(parts, 0, index),
            offset(parts, 0, index) + parts[index].len(),
        ) =~= concat_all(front).subrange(
            offset(parts, 0, index),
            offset(parts, 0, index) + parts[index].len(),
        ));
    } else {
        assert(concat_all(parts).subrange(
            offset(parts, 0, index),
            offset(parts, 0, index) + parts[index].len(),
        ) =~= parts[index]);
    }
}

/// A list with commas between the parts holds each part at its offset.
pub proof fn lemma_punctuated_holds(parts: Seq<Seq<TokenView>>, index: int)
    requires
        0 <= index < parts.len(),
    ensures
        punctuated(parts).len() + 1 == offset(parts, 1, parts.len() as int),
        stands_at(punctuated(parts), parts[index], offset(parts, 1, index)),
    decreases parts.len(),
{
    let front = parts.drop_last();
    let last = parts.len() - 1;
    lemma_offset_prefix(parts, 1, last, last);
    if front.len() > 0 {
        lemma_punctuated_holds(front, 0);
        assert(punctuated(parts) == punctuated(front) + punct(',') + parts[last]);
        assert(punctuated(front).len() + 1 == offset(parts, 1, last));
    } else {
        assert(punctuated(parts) == parts[last]);
    }
    if index < last {
        lemma_punctuated_holds(front, index);
        lemma_offset_prefix(parts, 1, last, index);
        assert(punctuated(parts).subrange(
            offset(parts, 1, index),
            offset(parts, 1, index) + parts[index].len(),
        ) =~= punctuated(front).subrange(
            offset(parts, 1, index),
            offset(parts, 1, index) + parts[index].len(),
        ));
    } else {
        assert(punctuated(parts).subrange(
            offset(parts, 1, index),
            offset(parts, 1, index) + parts[index].len(),
        ) =~= parts[index]);
    }
}

/// A list with a comma after each part holds each part at its offset.
pub proof fn lemma_terminated_holds(parts: Seq<Seq<TokenView>>, index: int)
    requires
        0 <= index < parts.len(),
    ensures
        terminated(parts).len() == offset(parts, 1, parts.len() as int),
        stands_at(terminated(parts), parts[index], offset(parts, 1, index)),
    decreases parts.len(),
{
    let front = parts.drop_last();
    let last = parts.len() - 1;
    lemma_offset_prefix(parts, 1, last, last);
    if front.len() > 0 {
        lemma_terminated_holds(front, 0);
    }
    assert(terminated(parts) == terminated(front) + parts[last] + punct(','));
    assert(terminated(front).len() == offset(parts, 1, last));
    if index < last {
        lemma_terminated_holds(front, index);
        lemma_offset_prefix(parts, 1, last, index);
        assert(terminated(parts).subrange(
            offset(parts, 1, index),
            offset(parts, 1, index) + parts[index].len(),
        ) =~= terminated(front).subrange(
            offset(parts, 1, index),
            offset(parts, 1, index) + parts[index].len(),
        ));
    } else {
        assert(terminated(parts).subrange(
            offset(parts, 1, index),
            offset(parts, 1, index) + parts[index].len(),
        ) =~= parts[index]);
    }
}

/// A list without separators keeps the order of its parts.
pub proof fn lemma_concat_all_in_order(parts: Seq<Seq<TokenView>>, i: int, j: int)
    requires
        0 <= i < j < parts.len(),
    ensures
        in_order(concat_all(parts), parts, 0, i, j),
{
    lemma_concat_all_holds(parts, i);
    lemma_concat_all_holds(parts, j);
    lemma_offset_increases(parts, 0, i, j);
}

/// A list with commas between the parts keeps the order of its parts.
pub proof fn lemma_punctuated_in_order(parts: Seq<Seq<TokenView>>, i: int, j: int)
    requires
        0 <= i < j < parts.len(),
    ensures
        in_order(punctuated(parts), parts, 1, i, j),
{
    lemma_punctuated_holds(parts, i);
    lemma_punctuated_holds(parts, j);
    lemma_offset_increases(parts, 1, i, j);
}

/// A list with a comma after each part keeps the order of its parts.
pub proof fn lemma_terminated_in_order(parts: Seq<Seq<TokenView>>, i: int, j: int)
    requires
        0 <= i < j < parts.len(),
    ensures
        in_order(terminated(parts), parts, 1, i, j),
{
    lemma_terminated_holds(parts, i);
    lemma_terminated_holds(parts, j);
    lemma_offset_increases(parts, 1, i, j);
}

/// One tree of emitted code: a token that is no bracket, or a group with the
/// trees that it encloses.
#[derive(PartialEq, Eq, Debug)]
pub enum TokenTree {
    /// An identifier or keyword.
    Ident(String),
    /// A single punctuation character.
    Punct(char, Spacing),
    /// A literal, by its source text.
    Literal(String),
    /// Source text that is carried through unread, such as a type.
    Fragment(String),
    /// The trees inside one pair of brackets.
    Group(Delimiter, Vec<TokenTree>),
}

/// The tokens of the first `count` trees of `trees`, in order. The tokens of
/// a group are its opening bracket, the tokens of its trees, and its closing
/// bracket.
pub open spec fn flatten(trees: Seq<TokenTree>, count: nat) -> Seq<TokenView>
    decreases trees, count,
{
    if count == 0 || count > trees.len() {
        Seq::empty()
    } else {
        flatten(trees, (count - 1) as nat) + match trees[count - 1] {
            TokenTree::Ident(name) => ident(name@),
            TokenTree::Punct(ch, spacing) => seq![TokenView::Punct(ch, spacing)],
            TokenTree::Literal(text) => literal(text@),
            TokenTree::Fragment(text) => seq![TokenView::Fragment(text@)],
            TokenTree::Group(delimiter, inner) => group(
                delimiter,
                flatten(inner@, inner@.len()),
            ),
        }
    }
}

/// The tokens of `trees`, in order.
pub open spec fn tree_tokens(trees: Seq<TokenTree>) -> Seq<TokenView> {
    flatten(trees, trees.len())
}

/// The tokens of a prefix of `trees` are those of the whole up to there.
pub proof fn lemma_flatten_prefix(trees: Seq<TokenTree>, longer: Seq<TokenTree>, count: nat)
    requires
        count <= trees.len() <= longer.len(),
        forall|i: int| 0 <= i < trees.len() ==> trees[i] == longer[i],
    ensures
        flatten(trees, count) == flatten(longer, count),
    decreases count,
{
    if count > 0 {
        lemma_flatten_prefix(trees, longer, (count - 1) as nat);
    }
}

/// The tokens of a sequence of trees with one more tree at its end.
pub proof fn lemma_tree_tokens_push(trees: Seq<TokenTree>, tree: TokenTree)
    ensures
        tree_tokens(trees.push(tree)) == tree_tokens(trees) + tree_tokens(seq![tree]),
{
    lemma_flatten_prefix(trees, trees.push(tree), trees.len());
    assert(flatten(seq![tree], 0) + tree_tokens(seq![tree]) =~= tree_tokens(seq![tree]));
    reveal_with_fuel(flatten, 2);
    assert(tree_tokens(seq![tree]) =~= flatten(seq![tree], 1));
}

/// The tokens of two sequences of trees, one after the other.
pub proof fn lemma_tree_tokens_concat(first: Seq<TokenTree>, second: Seq<TokenTree>)
    ensures
        tree_tokens(first + second) == tree_tokens(first) + tree_tokens(second),
    decreases second.len(),
{
    if second.len() == 0 {
        assert(first + second =~= first);
        assert(tree_tokens(first) + tree_tokens(second) =~= tree_tokens(first));
    } else {
        let front = second.drop_last();
        let last = second.last();
        assert(first + second =~= (first + front).push(last));
        assert(second =~= front.push(last));
        lemma_tree_tokens_concat(first, front);
        lemma_tree_tokens_push(first + front, last);
        lemma_tree_tokens_push(front, last);
        assert(tree_tokens(first) + tree_tokens(front) + tree_tokens(seq![last]) =~= tree_tokens(
            first,
        ) + (tree_tokens(front) + tree_tokens(seq![last])));
    }
}

/// The tokens of any trees are well nested.
pub proof fn lemma_flatten_well_nested(trees: Seq<TokenTree>, count: nat)
    ensures
        well_nested(flatten(trees, count)),
    decreases trees, count,
{
    if count == 0 || count > trees.len() {
        reveal_with_fuel(scan, 1);
    } else {
        lemma_flatten_well_nested(trees, (count - 1) as nat);
        let front = flatten(trees, (count - 1) as nat);
        match trees[count - 1] {
            TokenTree::Ident(name) => {
                lemma_well_nested_plain(TokenView::Ident(name@));
                lemma_well_nested_concat(front, ident(name@));
            },
            TokenTree::Punct(ch, spacing) => {
                lemma_well_nested_plain(TokenView::Punct(ch, spacing));
                lemma_well_nested_concat(front, seq![TokenView::Punct(ch, spacing)]);
            },
            TokenTree::Literal(text) => {
                lemma_well_nested_plain(TokenView::Literal(text@));
                lemma_well_nested_concat(front, literal(text@));
            },
            TokenTree::Fragment(text) => {
                lemma_well_nested_plain(TokenView::Fragment(text@));
                lemma_well_nested_concat(front, seq![TokenView::Fragment(text@)]);
            },
            TokenTree::Group(delimiter, inner) => {
                lemma_flatten_well_nested(inner@, inner@.len());
                lemma_well_nested_group(delimiter, flatten(inner@, inner@.len()));
                lemma_well_nested_concat(front, group(delimiter, flatten(inner@, inner@.len())));
            },
        }
    }
}

/// Appends the tokens of `trees` to `out`.
fn flatten_into(trees: &Vec<TokenTree>, out: &mut Vec<Token>)
    ensures
        token_views(final(out)@) == token_views(old(out)@) + tree_tokens(trees@),
    decreases trees,
{
    let ghost before = token_views(out@);
    let mut i: usize = 0;
    assert(token_views(out@) =~= before + flatten(trees@, 0));
    while i < trees.len()
        invariant
            i <= trees.len(),
            token_views(out@) == before + flatten(trees@, i as nat),
        decreases trees.len() - i,
    {
        let ghost front = token_views(out@);
        match &trees[i] {
            TokenTree::Ident(name) => {
                out.push(Token::Ident(name.clone()));
                assert(token_views(out@) =~= front + ident(name@));
            },
            TokenTree::Punct(ch, spacing) => {
                out.push(Token::Punct(*ch, *spacing));
                assert(token_views(out@) =~= front + seq![TokenView::Punct(*ch, *spacing)]);
            },
            TokenTree::Literal(text) => {
                out.push(Token::Literal(text.clone()));
                assert(token_views(out@) =~= front + literal(text@));
            },
            TokenTree::Fragment(text) => {
                out.push(Token::Fragment(text.clone()));
                assert(token_views(out@) =~= front + seq![TokenView::Fragment(text@)]);
            },
            TokenTree::Group(delimiter, inner) => {
                out.push(Token::Open(*delimiter));
                let ghost opened = token_views(out@);
                assert(opened =~= front + seq![TokenView::Open(*delimiter)]);
                flatten_into(inner, out);
                let ghost filled = token_views(out@);
                out.push(Token::Close(*delimiter));
                assert(token_views(out@) =~= filled + seq![TokenView::Close(*delimiter)]);
                assert(token_views(out@) =~= front + group(*delimiter, tree_tokens(inner@)));
            },
        }
        i += 1;
        assert(token_views(out@) =~= before + flatten(trees@, i as nat));
    }
}

/// A sequence of token trees.
#[derive(PartialEq, Eq, Debug)]
pub struct TokenStream {
    trees: Vec<TokenTree>,
}

impl View for TokenStream {
    type V = Seq<TokenView>;

    /// The tokens of the stream, in order, with every group written as its
    /// opening bracket, its tokens and its closing bracket.
    closed spec fn view(&self) -> Seq<TokenView> {
        tree_tokens(self.trees@)
    }
}

impl TokenStream {
    /// The tokens of every stream are well nested.
    pub proof fn lemma_well_nested(self)
        ensures
            well_nested(self@),
    {
        lemma_flatten_well_nested(self.trees@, self.trees@.len());
    }

    /// The empty stream.
    pub fn new() -> (out: TokenStream)
        ensures
            out@ == Seq::<TokenView>::empty(),
    {
        TokenStream { trees: Vec::new() }
    }

    /// The number of tokens, brackets counted one by one.
    pub fn len(&self) -> (n: usize)
        ensures
            n == self@.len(),
    {
        self.tokens().len()
    }

    /// The trees of the stream.
    pub fn trees(&self) -> (trees: &Vec<TokenTree>)
        ensures
            tree_tokens(trees@) == self@,
    {
        &self.trees
    }

    /// The stream as a vector of trees.
    pub fn into_trees(self) -> (trees: Vec<TokenTree>)
        ensures
            tree_tokens(trees@) == self@,
    {
        self.trees
    }

    /// The tokens of the stream, which are well nested.
    pub fn tokens(&self) -> (tokens: Vec<Token>)
        ensures
            token_views(tokens@) == self@,
            well_nested(self@),
    {
        proof {
            self.lemma_well_nested();
        }
        let mut tokens: Vec<Token> = Vec::new();
        flatten_into(&self.trees, &mut tokens);
        assert(token_views(tokens@) =~= self@);
        tokens
    }

    fn tree(self, tree: TokenTree) -> (out: TokenStream)
        ensures
            out@ == self@ + tree_tokens(seq![tree]),
    {
        proof {
            lemma_tree_tokens_push(self.trees@, tree);
        }
        let mut trees = self.trees;
        trees.push(tree);
        TokenStream { trees }
    }

    /// The stream followed by the identifier `name`.
    pub fn ident(self, name: &str) -> (out: TokenStream)
        ensures
            out@ == self@ + ident(name@),
    {
        let out = self.tree(TokenTree::Ident(name.to_owned()));
        proof {
            reveal_with_fuel(flatten, 2);
        }
        assert(out@ =~= self@ + ident(name@));
        out
    }

    /// The stream followed by the punctuation character `ch`, standing alone.
    pub fn punct(self, ch: char) -> (out: TokenStream)
        ensures
            out@ == self@ + punct(ch),
    {
        let out = self.tree(TokenTree::Punct(ch, Spacing::Alone));
        proof {
            reveal_with_fuel(flatten, 2);
        }
        assert(out@ =~= self@ + punct(ch));
        out
    }

    /// The stream followed by the two-character operator `first second`.
    pub fn operator(self, first: char, second: char) -> (out: TokenStream)
        ensures
            out@ == self@ + operator(first, second),
    {
        let out = self.tree(TokenTree::Punct(first, Spacing::Joint)).tree(
            TokenTree::Punct(second, Spacing::Alone),
        );
        proof {
            reveal_with_fuel(flatten, 2);
        }
        assert(out@ =~= self@ + operator(first, second));
        out
    }

    /// The stream followed by `::`.
    pub fn path_sep(self) -> (out: TokenStream)
        ensures
            out@ == self@ + path_sep(),
    {
        self.operator(':', ':')
    }

    /// The stream followed by `->`.
    pub fn arrow(self) -> (out: TokenStream)
        ensures
            out@ == self@ + arrow(),
    {
        self.operator('-', '>')
    }

    /// The stream followed by `=>`.
    pub fn fat_arrow(self) -> (out: TokenStream)
        ensures
            out@ == self@ + fat_arrow(),
    {
        self.operator('=', '>')
    }

    /// The stream followed by the lifetime `'name`.
    pub fn lifetime(self, name: &str) -> (out: TokenStream)
        ensures
            out@ == self@ + lifetime(name@),
    {
        let out = self.tree(TokenTree::Punct('\'', Spacing::Joint)).tree(
            TokenTree::Ident(name.to_owned()),
        );
        proof {
            reveal_with_fuel(flatten, 2);
        }
        assert(out@ =~= self@ + lifetime(name@));
        out
    }

    /// The stream followed by the literal with source text `text`.
    pub fn literal(self, text: &str) -> (out: TokenStream)
        ensures
            out@ == self@ + literal(text@),
    {
        let out = self.tree(TokenTree::Literal(text.to_owned()));
        proof {
            reveal_with_fuel(flatten, 2);
        }
        assert(out@ =~= self@ + literal(text@));
        out
    }

    /// The stream followed by the carried source text `text`; unchanged when
    /// the text is empty.
    pub fn fragment(self, text: &str) -> (out: TokenStream)
        ensures
            out@ == self@ + fragment(text@),
    {
        if text.is_empty() {
            assert(self@ + fragment(text@) =~= self@);
            self
        } else {
            let out = self.tree(TokenTree::Fragment(text.to_owned()));
            proof {
                reveal_with_fuel(flatten, 2);
            }
            assert(out@ =~= self@ + fragment(text@));
            out
        }
    }

    /// The stream followed by `inner` in the brackets of `delimiter`.
    pub fn group(self, delimiter: Delimiter, inner: TokenStream) -> (out: TokenStream)
        ensures
            out@ == self@ + group(delimiter, inner@),
    {
        let out = self.tree(TokenTree::Group(delimiter, inner.trees));
        proof {
            reveal_with_fuel(flatten, 2);
        }
        assert(out@ =~= self@ + group(delimiter, inner@));
        out
    }

    /// The stream followed by the trees of `other`.
    pub fn append(self, other: TokenStream) -> (out: TokenStream)
        ensures
            out@ == self@ + other@,
    {
        proof {
            lemma_tree_tokens_concat(self.trees@, other.trees@);
        }
        let mut trees = self.trees;
        let mut rest = other.trees;
        trees.append(&mut rest);
        TokenStream { trees }
    }

    /// The streams of `parts`, one after the other.
    pub fn concat_all(parts: Vec<TokenStream>) -> (out: TokenStream)
        ensures
            out@ == concat_all(stream_views(parts@)),
    {
        let ghost all = stream_views(parts@);
        let mut out = TokenStream::new();
        for part in it: parts
            invariant
                all == stream_views(parts@),
                out@ == concat_all(all.take(it.index())),
        {
            proof {
                assert(all.take(it.index() + 1).drop_last() =~= all.take(it.index()));
            }
            out = out.append(part);
        }
        assert(all.take(all.len() as int) =~= all);
        out
    }

    /// The streams of `parts` with a comma between each two neighbours.
    pub fn punctuated(parts: Vec<TokenStream>) -> (out: TokenStream)
        ensures
            out@ == punctuated(stream_views(parts@)),
    {
        let ghost all = stream_views(parts@);
        let mut out = TokenStream::new();
        let mut first = true;
        for part in it: parts
            invariant
                all == stream_views(parts@),
                first == (it.index() == 0),
                out@ == punctuated(all.take(it.index())),
        {
            proof {
                assert(all.take(it.index() + 1).drop_last() =~= all.take(it.index()));
            }
            if first {
                assert(out@ + part@ =~= part@);
                out = out.append(part);
                first = false;
            } else {
                out = out.punct(',').append(part);
            }
        }
        assert(all.take(all.len() as int) =~= all);
        out
    }

    /// The streams of `parts` with a comma after each.
    pub fn terminated(parts: Vec<TokenStream>) -> (out: TokenStream)
        ensures
            out@ == terminated(stream_views(parts@)),
    {
        let ghost all = stream_views(parts@);
        let mut out = TokenStream::new();
        for part in it: parts
            invariant
                all == stream_views(parts@),
                out@ == terminated(all.take(it.index())),
        {
            proof {
                assert(all.take(it.index() + 1).drop_last() =~= all.take(it.index()));
            }
            out = out.append(part).punct(',');
        }
        assert(all.take(all.len() as int) =~= all);
        out
    }
}

} // verus!
