//! The highlighter of the query editor: from the text of the buffer to a flat
//! list of styled spans, with the cursor drawn into it.

use crate::data::sqlite_table::{table_names, SqliteTable};
use sqlparser::dialect::SQLiteDialect;
use sqlparser::keywords::Keyword;
use sqlparser::tokenizer::{Token, Tokenizer};
use vstd::prelude::*;
use vstd::string::*;

verus! {

/// What the highlighter tells apart in a token.
#[derive(Debug, Clone, Copy, PartialEq, Eq)]
pub enum TokenKind {
    /// A reserved word of SQL.
    Keyword,
    /// A word that is no keyword, quoted or not.
    Identifier,
    /// Blanks, line ends and comments.
    Whitespace,
    /// Numbers, strings, operators and the rest.
    Other,
}

/// One token of a statement.
#[derive(Debug, PartialEq, Eq)]
pub struct SqlToken {
    pub kind: TokenKind,
    /// The token as it is written, a quoted word with its quotes.
    pub text: String,
}

/// The mathematical content of a [`SqlToken`].
pub struct SqlTokenView {
    pub kind: TokenKind,
    pub text: Seq<char>,
}

impl View for SqlToken {
    type V = SqlTokenView;

    open spec fn view(&self) -> SqlTokenView {
        SqlTokenView { kind: self.kind, text: self.text@ }
    }
}

/// How a span is drawn.
#[derive(Debug, Clone, Copy, PartialEq, Eq)]
pub enum SpanStyle {
    /// The terminal's own colours.
    Plain,
    /// A reserved word.
    Keyword,
    /// The name of a table of the catalog.
    TableName,
    /// The character under the cursor, inverted.
    Cursor,
    /// The block that stands for the cursor behind the last character.
    EndCursor,
    /// The marker of an error.
    Failure,
    /// The marker of a statement that ran.
    Success,
}

/// A run of characters in one style.
#[derive(Debug, PartialEq, Eq)]
pub struct StyledSpan {
    pub content: String,
    pub style: SpanStyle,
}

/// The mathematical content of a [`StyledSpan`].
pub struct StyledSpanView {
    pub content: Seq<char>,
    pub style: SpanStyle,
}

impl View for StyledSpan {
    type V = StyledSpanView;

    open spec fn view(&self) -> StyledSpanView {
        StyledSpanView { content: self.content@, style: self.style }
    }
}

/// The tokens that `sqlparser` finds in a text under its SQLite dialect, or
/// `None` where it gives up on the text.
pub uninterp spec fn sqlite_tokens(query: Seq<char>) -> Option<Seq<SqlTokenView>>;

/// The text in lower case, as `str::to_lowercase` gives it.
pub uninterp spec fn lowercase(text: Seq<char>) -> Seq<char>;

/// The content of each token.
pub open spec fn tokens_view(tokens: Seq<SqlToken>) -> Seq<SqlTokenView> {
    Seq::new(tokens.len(), |i: int| tokens[i]@)
}

/// The content of each span.
pub open spec fn spans_view(spans: Seq<StyledSpan>) -> Seq<StyledSpanView> {
    Seq::new(spans.len(), |i: int| spans[i]@)
}

/// Whether `word` is one of the names, letter case aside.
pub open spec fn names_table(names: Seq<Seq<char>>, word: Seq<char>) -> bool {
    exists|i: int| 0 <= i < names.len() && lowercase(#[trigger] names[i]) == lowercase(word)
}

/// The style of a token: keywords in theirs, identifiers that name a table
/// in theirs, everything else plain. A quoted word is compared with its
/// quotes, so it names no table.
pub open spec fn token_style(token: SqlTokenView, names: Seq<Seq<char>>) -> SpanStyle {
    match token.kind {
        TokenKind::Keyword => SpanStyle::Keyword,
        TokenKind::Identifier => if names_table(names, token.text) {
            SpanStyle::TableName
        } else {
            SpanStyle::Plain
        },
        _ => SpanStyle::Plain,
    }
}

/// The span of a token before the cursor is drawn: the token as it is
/// written, in its style.
pub open spec fn token_span(token: SqlTokenView, names: Seq<Seq<char>>) -> StyledSpanView {
    StyledSpanView { content: token.text, style: token_style(token, names) }
}

/// A span cut in three round the character at `at`, which takes the cursor's style.
pub open spec fn cursor_split(span: StyledSpanView, at: int) -> Seq<StyledSpanView> {
    seq![
        StyledSpanView { content: span.content.take(at), style: span.style },
        StyledSpanView { content: span.content.subrange(at, at + 1), style: SpanStyle::Cursor },
        StyledSpanView { content: span.content.skip(at + 1), style: span.style },
    ]
}

/// The spans of the token that starts at column `start`: cut in three where
/// the cursor stands on one of its characters, whole otherwise.
pub open spec fn token_spans(
    token: SqlTokenView,
    start: int,
    cursor: int,
    names: Seq<Seq<char>>,
) -> Seq<StyledSpanView> {
    if start <= cursor < start + token.text.len() {
        cursor_split(token_span(token, names), cursor - start)
    } else {
        seq![token_span(token, names)]
    }
}

/// The number of characters that the tokens take up.
pub open spec fn tokens_width(tokens: Seq<SqlTokenView>) -> int
    decreases tokens.len(),
{
    if tokens.len() == 0 {
        0
    } else {
        tokens_width(tokens.drop_last()) + tokens.last().text.len()
    }
}

/// The spans of all tokens, one after the other.
pub open spec fn tokens_spans(tokens: Seq<SqlTokenView>, cursor: int, names: Seq<Seq<char>>) -> Seq<
    StyledSpanView,
>
    decreases tokens.len(),
{
    if tokens.len() == 0 {
        Seq::empty()
    } else {
        tokens_spans(tokens.drop_last(), cursor, names) + token_spans(
            tokens.last(),
            tokens_width(tokens.drop_last()),
            cursor,
            names,
        )
    }
}

/// The block that is drawn behind the text when the cursor stands there.
pub open spec fn end_cursor() -> StyledSpanView {
    StyledSpanView { content: "█"@, style: SpanStyle::EndCursor }
}

/// The spans of a buffer of `text_len` characters that was cut into `tokens`.
pub open spec fn highlighted(
    tokens: Seq<SqlTokenView>,
    text_len: int,
    cursor: int,
    names: Seq<Seq<char>>,
) -> Seq<StyledSpanView> {
    if cursor == text_len {
        tokens_spans(tokens, cursor, names).push(end_cursor())
    } else {
        tokens_spans(tokens, cursor, names)
    }
}

/// The characters of the tokens as they are written, one token after the other.
pub open spec fn tokens_written(tokens: Seq<SqlTokenView>) -> Seq<char>
    decreases tokens.len(),
{
    if tokens.len() == 0 {
        Seq::empty()
    } else {
        tokens_written(tokens.drop_last()) + tokens.last().text
    }
}

/// The text as one plain token.
pub open spec fn plain_token(text: Seq<char>) -> SqlTokenView {
    SqlTokenView { kind: TokenKind::Other, text }
}

/// The tokens of a text. A text that the tokenizer gives up on counts as
/// one plain token, and so does one whose tokens, written one after the
/// other, are not the text itself: what the editor shows is always the
/// buffer, character by character.
pub open spec fn query_tokens(text: Seq<char>) -> Seq<SqlTokenView> {
    match sqlite_tokens(text) {
        Some(tokens) => if tokens_written(tokens) == text {
            tokens
        } else {
            seq![plain_token(text)]
        },
        None => seq![plain_token(text)],
    }
}

/// The spans that the editor shows for a text with the cursor at `cursor`.
pub open spec fn highlight_spans(text: Seq<char>, cursor: int, names: Seq<Seq<char>>) -> Seq<
    StyledSpanView,
> {
    highlighted(query_tokens(text), text.len() as int, cursor, names)
}

/// The characters of the spans, one span after the other.
pub open spec fn spans_text(spans: Seq<StyledSpanView>) -> Seq<char>
    decreases spans.len(),
{
    if spans.len() == 0 {
        Seq::empty()
    } else {
        spans_text(spans.drop_last()) + spans.last().content
    }
}

/// Whether a span stands for the cursor.
pub open spec fn is_cursor(span: StyledSpanView) -> bool {
    span.style == SpanStyle::Cursor || span.style == SpanStyle::EndCursor
}

/// The number of spans that stand for the cursor.
pub open spec fn cursor_count(spans: Seq<StyledSpanView>) -> nat
    decreases spans.len(),
{
    if spans.len() == 0 {
        0
    } else if is_cursor(spans.last()) {
        cursor_count(spans.drop_last()) + 1
    } else {
        cursor_count(spans.drop_last())
    }
}

/// Whether the span at `at` stands for the cursor on the character at
/// `cursor` of `written`, and the spans before and behind it spell what is
/// written before and behind that character.
pub open spec fn cursor_stands_at(
    spans: Seq<StyledSpanView>,
    at: int,
    written: Seq<char>,
    cursor: int,
) -> bool {
    &&& 0 <= at < spans.len()
    &&& 0 <= cursor < written.len()
    &&& spans[at].style == SpanStyle::Cursor
    &&& spans[at].content == seq![written[cursor]]
    &&& spans_text(spans.take(at)) == written.take(cursor)
    &&& spans_text(spans.skip(at + 1)) == written.skip(cursor + 1)
}

/// The characters of two runs of spans are those of the first, then those of the second.
pub proof fn lemma_spans_text_concat(first: Seq<StyledSpanView>, second: Seq<StyledSpanView>)
    ensures
        spans_text(first + second) == spans_text(first) + spans_text(second),
    decreases second.len(),
{
    if second.len() == 0 {
        assert(first + second =~= first);
        assert(spans_text(first) + spans_text(second) =~= spans_text(first));
    } else {
        lemma_spans_text_concat(first, second.drop_last());
        assert((first + second).drop_last() =~= first + second.drop_last());
        assert((first + second).last() == second.last());
        assert(spans_text(first + second) =~= spans_text(first) + spans_text(second));
    }
}

/// The cursors of two runs of spans are those of the first and those of the second.
pub proof fn lemma_cursor_count_concat(first: Seq<StyledSpanView>, second: Seq<StyledSpanView>)
    ensures
        cursor_count(first + second) == cursor_count(first) + cursor_count(second),
    decreases second.len(),
{
    if second.len() == 0 {
        assert(first + second =~= first);
    } else {
        lemma_cursor_count_concat(first, second.drop_last());
        assert((first + second).drop_last() =~= first + second.drop_last());
        assert((first + second).last() == second.last());
    }
}

/// What the tokens write is as long as they are wide.
pub proof fn lemma_written_width(tokens: Seq<SqlTokenView>)
    ensures
        tokens_written(tokens).len() == tokens_width(tokens),
    decreases tokens.len(),
{
    if tokens.len() > 0 {
        lemma_written_width(tokens.drop_last());
    }
}

/// The characters of one span are its content.
proof fn lemma_single_span_text(span: StyledSpanView)
    ensures
        spans_text(seq![span]) == span.content,
        cursor_count(seq![span]) == if is_cursor(span) {
            1nat
        } else {
            0nat
        },
{
    reveal_with_fuel(spans_text, 2);
    reveal_with_fuel(cursor_count, 2);
    assert(seq![span].drop_last() =~= Seq::<StyledSpanView>::empty());
    assert(spans_text(seq![span]) =~= span.content);
}

/// Drawing the cursor into a token changes none of its characters, and
/// draws one cursor where the cursor stands on the token and none elsewhere.
pub proof fn lemma_cursor_keeps_token(
    token: SqlTokenView,
    start: int,
    cursor: int,
    names: Seq<Seq<char>>,
)
    ensures
        spans_text(token_spans(token, start, cursor, names)) == token.text,
        cursor_count(token_spans(token, start, cursor, names)) == if start <= cursor < start
            + token.text.len() {
            1nat
        } else {
            0nat
        },
{
    let span = token_span(token, names);
    let spans = token_spans(token, start, cursor, names);
    if start <= cursor < start + token.text.len() {
        let at = cursor - start;
        let left = seq![spans[0]];
        let middle = seq![spans[1]];
        let right = seq![spans[2]];
        assert(spans =~= left + middle + right);
        lemma_single_span_text(spans[0]);
        lemma_single_span_text(spans[1]);
        lemma_single_span_text(spans[2]);
        lemma_spans_text_concat(left, middle);
        lemma_spans_text_concat(left + middle, right);
        lemma_cursor_count_concat(left, middle);
        lemma_cursor_count_concat(left + middle, right);
        assert(span.content.take(at) + span.content.subrange(at, at + 1) + span.content.skip(
            at + 1,
        ) =~= span.content);
    } else {
        lemma_single_span_text(span);
    }
}

/// Wherever the cursor stands, the spans of the tokens spell what the tokens
/// write: the cursor moves no character and hides none.
pub proof fn lemma_cursor_keeps_text(tokens: Seq<SqlTokenView>, cursor: int, names: Seq<Seq<char>>)
    ensures
        spans_text(tokens_spans(tokens, cursor, names)) == tokens_written(tokens),
    decreases tokens.len(),
{
    if tokens.len() > 0 {
        let start = tokens_width(tokens.drop_last());
        lemma_cursor_keeps_text(tokens.drop_last(), cursor, names);
        lemma_cursor_keeps_token(tokens.last(), start, cursor, names);
        lemma_spans_text_concat(
            tokens_spans(tokens.drop_last(), cursor, names),
            token_spans(tokens.last(), start, cursor, names),
        );
    }
}

/// The spans of the tokens hold one cursor where the cursor stands on one
/// of their characters, and none where it stands elsewhere.
pub proof fn lemma_one_cursor_in_tokens(
    tokens: Seq<SqlTokenView>,
    cursor: int,
    names: Seq<Seq<char>>,
)
    ensures
        cursor_count(tokens_spans(tokens, cursor, names)) == if 0 <= cursor < tokens_width(
            tokens,
        ) {
            1nat
        } else {
            0nat
        },
        tokens_width(tokens) >= 0,
    decreases tokens.len(),
{
    if tokens.len() > 0 {
        let start = tokens_width(tokens.drop_last());
        lemma_one_cursor_in_tokens(tokens.drop_last(), cursor, names);
        lemma_cursor_keeps_token(tokens.last(), start, cursor, names);
        lemma_cursor_count_concat(
            tokens_spans(tokens.drop_last(), cursor, names),
            token_spans(tokens.last(), start, cursor, names),
        );
    }
}

/// Where the tokens fill the buffer and the cursor stands in it or at its
/// end, exactly one span stands for the cursor.
pub proof fn lemma_one_cursor(
    tokens: Seq<SqlTokenView>,
    text_len: int,
    cursor: int,
    names: Seq<Seq<char>>,
)
    requires
        tokens_width(tokens) == text_len,
        0 <= cursor <= text_len,
    ensures
        cursor_count(highlighted(tokens, text_len, cursor, names)) == 1,
        cursor == text_len ==> highlighted(tokens, text_len, cursor, names).last() == end_cursor()
            && spans_text(tokens_spans(tokens, cursor, names)) == tokens_written(tokens),
{
    lemma_one_cursor_in_tokens(tokens, cursor, names);
    lemma_cursor_keeps_text(tokens, cursor, names);
    if cursor == text_len {
        let spans = highlighted(tokens, text_len, cursor, names);
        assert(spans.drop_last() =~= tokens_spans(tokens, cursor, names));
    }
}

/// Where the cursor stands on a character of the tokens, one span holds
/// that character in the cursor's style, and the spans before it and behind
/// it spell what is written before and behind the character.
pub proof fn lemma_cursor_position(tokens: Seq<SqlTokenView>, cursor: int, names: Seq<Seq<char>>)
    requires
        0 <= cursor < tokens_width(tokens),
    ensures
        exists|at: int|
            cursor_stands_at(
                tokens_spans(tokens, cursor, names),
                at,
                tokens_written(tokens),
                cursor,
            ),
    decreases tokens.len(),
{
    let earlier = tokens.drop_last();
    let start = tokens_width(earlier);
    let written = tokens_written(tokens);
    let head = tokens_spans(earlier, cursor, names);
    let tail = token_spans(tokens.last(), start, cursor, names);
    let spans = tokens_spans(tokens, cursor, names);
    lemma_written_width(earlier);
    lemma_written_width(tokens);
    lemma_one_cursor_in_tokens(earlier, cursor, names);
    if cursor < start {
        lemma_cursor_position(earlier, cursor, names);
        let at = choose|at: int| cursor_stands_at(head, at, tokens_written(earlier), cursor);
        lemma_single_span_text(token_span(tokens.last(), names));
        lemma_spans_text_concat(head.skip(at + 1), tail);
        assert(spans.take(at) =~= head.take(at));
        assert(spans.skip(at + 1) =~= head.skip(at + 1) + tail);
        assert(written.take(cursor) =~= tokens_written(earlier).take(cursor));
        assert(written.skip(cursor + 1) =~= tokens_written(earlier).skip(cursor + 1)
            + tokens.last().text);
        assert(cursor_stands_at(spans, at, written, cursor));
    } else {
        let split = cursor - start;
        let content = tokens.last().text;
        let at = head.len() as int + 1;
        lemma_cursor_keeps_text(earlier, cursor, names);
        lemma_single_span_text(tail[0]);
        lemma_single_span_text(tail[2]);
        lemma_spans_text_concat(head, seq![tail[0]]);
        assert(spans.take(at) =~= head + seq![tail[0]]);
        assert(spans.skip(at + 1) =~= seq![tail[2]]);
        assert(written.take(cursor) =~= tokens_written(earlier) + content.take(split));
        assert(written.skip(cursor + 1) =~= content.skip(split + 1));
        assert(content.subrange(split, split + 1) =~= seq![written[cursor]]);
        assert(cursor_stands_at(spans, at, written, cursor));
    }
}

/// The tokens of a text spell the text.
pub proof fn lemma_query_tokens_spell_text(text: Seq<char>)
    ensures
        tokens_written(query_tokens(text)) == text,
        tokens_width(query_tokens(text)) == text.len(),
{
    let tokens = query_tokens(text);
    if tokens == seq![plain_token(text)] {
        reveal_with_fuel(tokens_written, 2);
        assert(tokens.drop_last() =~= Seq::<SqlTokenView>::empty());
        assert(tokens_written(tokens) =~= text);
    }
    lemma_written_width(tokens);
}

/// Whatever the text, with the cursor in it or at its end the editor shows
/// exactly one span that stands for the cursor. On a character, that span
/// holds the character, and the spans before it and behind it spell the
/// text before and behind it. At the end, the spans spell the whole text,
/// and the block follows them.
pub proof fn lemma_highlight_draws_the_cursor(text: Seq<char>, cursor: int, names: Seq<Seq<char>>)
    requires
        0 <= cursor <= text.len(),
    ensures
        cursor_count(highlight_spans(text, cursor, names)) == 1,
        cursor < text.len() ==> exists|at: int|
            cursor_stands_at(highlight_spans(text, cursor, names), at, text, cursor),
        cursor == text.len() ==> {
            &&& highlight_spans(text, cursor, names).last() == end_cursor()
            &&& spans_text(highlight_spans(text, cursor, names).drop_last()) == text
        },
{
    let tokens = query_tokens(text);
    lemma_query_tokens_spell_text(text);
    lemma_one_cursor(tokens, text.len() as int, cursor, names);
    if cursor < text.len() {
        lemma_cursor_position(tokens, cursor, names);
    } else {
        assert(highlight_spans(text, cursor, names).drop_last() =~= tokens_spans(
            tokens,
            cursor,
            names,
        ));
    }
}

/// Two renderings of one text, with one cursor and over one catalog, are the
/// same spans: the highlighter keeps nothing between calls.
pub proof fn lemma_highlight_repeats(
    text: Seq<char>,
    cursor: int,
    names: Seq<Seq<char>>,
    first: Seq<StyledSpanView>,
    second: Seq<StyledSpanView>,
)
    requires
        first == highlight_spans(text, cursor, names),
        second == highlight_spans(text, cursor, names),
    ensures
        first == second,
{
}

/// `Tokenizer::tokenize` of `sqlparser`, under `SQLiteDialect`: the tokens of
/// the text, each with its kind and its text as `Display` writes it; `None`
/// where the tokenizer reports an error.
#[verifier::external_body]
fn sqlite_tokenize(query: &str) -> (tokens: Option<Vec<SqlToken>>)
    ensures
        match tokens {
            Some(found) => sqlite_tokens(query@) == Some(tokens_view(found@)),
            None => sqlite_tokens(query@) is None,
        },
{
    let tokens = Tokenizer::new(&SQLiteDialect {}, query).tokenize().ok()?;
    let kind = |token: &Token| match token {
        Token::Word(word) => match word.keyword {
            Keyword::NoKeyword => TokenKind::Identifier,
            _ => TokenKind::Keyword,
        },
        Token::Whitespace(_) => TokenKind::Whitespace,
        _ => TokenKind::Other,
    };
    Some(tokens.iter().map(|t| SqlToken { kind: kind(t), text: t.to_string() }).collect())
}

/// `str::to_lowercase` of std.
#[verifier::external_body]
fn to_lowercase(text: &str) -> (lower: String)
    ensures
        lower@ == lowercase(text@),
{
    text.to_lowercase()
}

/// Whether `word` names a table of the catalog, letter case aside.
pub fn is_table_name(tables: &Vec<SqliteTable>, word: &str) -> (found: bool)
    ensures
        found == names_table(table_names(tables@), word@),
{
    let lower = to_lowercase(word);
    let mut at: usize = 0;
    while at < tables.len()
        invariant
            at <= tables@.len(),
            lower@ == lowercase(word@),
            forall|i: int|
                0 <= i < at ==> lowercase(#[trigger] table_names(tables@)[i]) != lowercase(word@),
        decreases tables@.len() - at,
    {
        let name = to_lowercase(tables[at].name.as_str());
        if name == lower {
            assert(lowercase(table_names(tables@)[at as int]) == lowercase(word@));
            return true;
        }
        at = at + 1;
    }
    false
}

/// The span of a token before the cursor is drawn.
pub fn style_token(token: &SqlToken, tables: &Vec<SqliteTable>) -> (span: StyledSpan)
    ensures
        span@ == token_span(token@, table_names(tables@)),
{
    let style = match token.kind {
        TokenKind::Keyword => SpanStyle::Keyword,
        TokenKind::Identifier => {
            if is_table_name(tables, token.text.as_str()) {
                SpanStyle::TableName
            } else {
                SpanStyle::Plain
            }
        },
        _ => SpanStyle::Plain,
    };
    StyledSpan { content: token.text.clone(), style }
}

/// The width of one token more is the width so far and the token's own.
proof fn lemma_width_step(tokens: Seq<SqlTokenView>, count: int)
    requires
        0 <= count < tokens.len(),
    ensures
        tokens_width(tokens.take(count + 1)) == tokens_width(tokens.take(count))
            + tokens[count].text.len(),
        tokens_width(tokens.take(count)) >= 0,
    decreases count,
{
    assert(tokens.take(count + 1).drop_last() =~= tokens.take(count));
    if count > 0 {
        lemma_width_step(tokens, count - 1);
    }
}

/// The spans of a buffer of `text_len` characters that was cut into
/// `tokens`, with the cursor at `cursor`.
pub fn highlight_tokens(
    tokens: &Vec<SqlToken>,
    text_len: usize,
    cursor: usize,
    tables: &Vec<SqliteTable>,
) -> (spans: Vec<StyledSpan>)
    ensures
        spans_view(spans@) == highlighted(
            tokens_view(tokens@),
            text_len as int,
            cursor as int,
            table_names(tables@),
        ),
{
    let ghost all = tokens_view(tokens@);
    let ghost names = table_names(tables@);
    let mut spans: Vec<StyledSpan> = Vec::new();
    let mut column: usize = 0;
    let mut beyond: bool = false;
    let mut at: usize = 0;
    assert(spans_view(spans@) =~= tokens_spans(all.take(0), cursor as int, names));
    while at < tokens.len()
        invariant
            at <= tokens@.len(),
            all == tokens_view(tokens@),
            names == table_names(tables@),
            spans_view(spans@) == tokens_spans(all.take(at as int), cursor as int, names),
            !beyond ==> column == tokens_width(all.take(at as int)),
            beyond ==> tokens_width(all.take(at as int)) > usize::MAX,
        decreases tokens@.len() - at,
    {
        let token = &tokens[at];
        let len: usize = token.text.as_str().unicode_len();
        let span = style_token(token, tables);
        let ghost before = spans_view(spans@);
        proof {
            lemma_width_step(all, at as int);
            assert(all.take(at + 1).drop_last() =~= all.take(at as int));
            assert(all.take(at + 1).last() == token@);
        }
        if !beyond && cursor >= column && cursor - column < len {
            let split: usize = cursor - column;
            let content = span.content.as_str();
            let left = StyledSpan {
                content: String::from_str(content.substring_char(0, split)),
                style: span.style,
            };
            let middle = StyledSpan {
                content: String::from_str(content.substring_char(split, split + 1)),
                style: SpanStyle::Cursor,
            };
            let right = StyledSpan {
                content: String::from_str(content.substring_char(split + 1, len)),
                style: span.style,
            };
            let ghost cut = cursor_split(span@, split as int);
            proof {
                assert(left@ == cut[0]);
                assert(middle@ == cut[1]);
                assert(right@ == cut[2]);
            }
            spans.push(left);
            spans.push(middle);
            spans.push(right);
            assert(spans_view(spans@) =~= before + cut);
        } else {
            let ghost whole = span@;
            spans.push(span);
            assert(spans_view(spans@) =~= before + seq![whole]);
        }
        if !beyond {
            if len > usize::MAX - column {
                beyond = true;
            } else {
                column = column + len;
            }
        }
        at = at + 1;
    }
    assert(all.take(at as int) =~= all);
    if cursor == text_len {
        let block = StyledSpan { content: String::from_str("█"), style: SpanStyle::EndCursor };
        let ghost before = spans_view(spans@);
        spans.push(block);
        assert(spans_view(spans@) =~= before.push(end_cursor()));
    }
    spans
}

/// The column at which the token at `index` starts.
pub open spec fn token_start(tokens: Seq<SqlTokenView>, index: int) -> int {
    tokens_width(tokens.take(index))
}

/// Whether the token at `index` is no whitespace and starts at `column` or before it.
pub open spec fn starts_by(tokens: Seq<SqlTokenView>, index: int, column: int) -> bool {
    tokens[index].kind != TokenKind::Whitespace && token_start(tokens, index) <= column
}

/// A later token starts no earlier.
proof fn lemma_starts_ascend(tokens: Seq<SqlTokenView>, first: int, second: int)
    requires
        0 <= first <= second <= tokens.len(),
    ensures
        token_start(tokens, first) <= token_start(tokens, second),
    decreases second - first,
{
    if first < second {
        lemma_width_step(tokens, second - 1);
        lemma_starts_ascend(tokens, first, second - 1);
    }
}

/// The last token that is no whitespace among those that start at `column`
/// or before it, with the number of tokens up to it, itself included; `None`
/// where there is no such token.
pub fn get_last_non_whitespace_token(tokens: &[SqlToken], column: usize) -> (found: Option<
    (usize, &SqlToken),
>)
    ensures
        match found {
            Some((count, token)) => {
                &&& 1 <= count <= tokens@.len()
                &&& *token == tokens@[count - 1]
                &&& starts_by(tokens_view(tokens@), count - 1, column as int)
                &&& forall|j: int|
                    count <= j < tokens@.len() ==> !starts_by(
                        tokens_view(tokens@),
                        j,
                        column as int,
                    )
            },
            None => forall|j: int|
                0 <= j < tokens@.len() ==> !starts_by(tokens_view(tokens@), j, column as int),
        },
{
    let ghost all = tokens_view(tokens@);
    let mut i: usize = 0;
    let mut last_non_whitespace: Option<(usize, &SqlToken)> = None;
    let mut current_column: usize = 0;
    let mut beyond: bool = false;
    while i < tokens.len() && !beyond && current_column <= column
        invariant
            i <= tokens@.len(),
            all == tokens_view(tokens@),
            !beyond ==> current_column == token_start(all, i as int),
            beyond ==> token_start(all, i as int) > usize::MAX,
            match last_non_whitespace {
                Some((count, token)) => {
                    &&& 1 <= count <= i
                    &&& *token == tokens@[count - 1]
                    &&& starts_by(all, count - 1, column as int)
                    &&& forall|j: int| count <= j < i ==> !starts_by(all, j, column as int)
                },
                None => forall|j: int| 0 <= j < i ==> !starts_by(all, j, column as int),
            },
        decreases tokens@.len() - i,
    {
        let token = &tokens[i];
        let len: usize = token.text.as_str().unicode_len();
        proof {
            lemma_width_step(all, i as int);
        }
        match token.kind {
            TokenKind::Whitespace => {},
            _ => {
                last_non_whitespace = Some((i + 1, token));
            },
        }
        if len > usize::MAX - current_column {
            beyond = true;
        } else {
            current_column = current_column + len;
        }
        i = i + 1;
    }
    proof {
        assert forall|j: int| i <= j < tokens@.len() implies !starts_by(all, j, column as int) by {
            lemma_starts_ascend(all, i as int, j);
        }
    }
    last_non_whitespace
}

/// The tokens written one after the other.
pub fn written(tokens: &Vec<SqlToken>) -> (text: String)
    ensures
        text@ == tokens_written(tokens_view(tokens@)),
{
    let ghost all = tokens_view(tokens@);
    let mut text = String::new();
    let mut at: usize = 0;
    assert(all.take(0) =~= Seq::<SqlTokenView>::empty());
    while at < tokens.len()
        invariant
            at <= tokens@.len(),
            all == tokens_view(tokens@),
            text@ == tokens_written(all.take(at as int)),
        decreases tokens@.len() - at,
    {
        proof {
            assert(all.take(at + 1).drop_last() =~= all.take(at as int));
            assert(all.take(at + 1).last() == tokens@[at as int]@);
        }
        text.append(tokens[at].text.as_str());
        at = at + 1;
    }
    assert(all.take(at as int) =~= all);
    text
}

/// The text as one plain token.
fn one_plain_token(text: &str) -> (tokens: Vec<SqlToken>)
    ensures
        tokens_view(tokens@) == seq![plain_token(text@)],
{
    let mut tokens: Vec<SqlToken> = Vec::new();
    tokens.push(SqlToken { kind: TokenKind::Other, text: String::from_str(text) });
    assert(tokens_view(tokens@) =~= seq![plain_token(text@)]);
    tokens
}

/// Cuts a text into tokens. A text that the tokenizer gives up on comes back
/// as one plain token, and so does one that its tokens do not spell.
pub fn tokenize(text: &str) -> (tokens: Vec<SqlToken>)
    ensures
        tokens_view(tokens@) == query_tokens(text@),
{
    match sqlite_tokenize(text) {
        Some(tokens) => {
            if written(&tokens) == String::from_str(text) {
                tokens
            } else {
                one_plain_token(text)
            }
        },
        None => one_plain_token(text),
    }
}

/// The spans that the editor shows for `text` with the cursor at `cursor`:
/// the tokens of the text, each in its style, the character under the cursor
/// in a span of its own, and a block behind the text where the cursor stands
/// at its end. A text that cannot be cut into tokens that spell it is shown
/// plain.
pub fn highlight(text: &str, cursor: usize, tables: &Vec<SqliteTable>) -> (spans: Vec<StyledSpan>)
    ensures
        spans_view(spans@) == highlight_spans(text@, cursor as int, table_names(tables@)),
{
    let tokens = tokenize(text);
    let text_len: usize = text.unicode_len();
    highlight_tokens(&tokens, text_len, cursor, tables)
}

} // verus!
