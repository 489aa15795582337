//! Deterministic assembly of the chat prompt.
//!
//! A prompt is exactly three turns in fixed order: a system persona
//! turn, a user turn carrying the expanded schema rendering, and a user
//! turn carrying the literal question with fixed instructions. No
//! chunking, truncation or summarization is applied, whatever the size
//! of the schema.

use vstd::prelude::*;
use crate::render::tables_expanded;
use crate::schema::DatabaseDescription;
use crate::schema::TableView;

verus! {

/// The author of a chat turn. The prompt only ever uses these two roles.
#[derive(Debug, Clone, Copy, PartialEq, Eq, Structural)]
pub enum ChatRole {
    System,
    User,
}

/// One role-tagged turn of the chat prompt.
#[derive(Debug, Clone, PartialEq)]
pub struct ChatTurn {
    pub role: ChatRole,
    pub content: String,
}

/// Content of the fixed system persona turn.
pub open spec fn system_turn_text() -> Seq<char> {
    ("You are a PostgreSQL expert")@
}

/// Content of the schema turn: the expanded rendering of the
/// description, introduced by a fixed sentence.
pub open spec fn schema_turn_text(tables: Seq<TableView>) -> Seq<char> {
    ("My Postgres database schema looks like this:\n")@ + tables_expanded(tables) + (".")@
}

/// Content of the question turn: the literal question text framed by
/// fixed instructions that constrain the answer to bare SQL over the
/// supplied schema.
pub open spec fn question_turn_text(question: Seq<char>) -> Seq<char> {
    ("Given that schema, could you give me a PostgreSQL query to do the following action: ")@
        + question
        + (
    ".\n Only respond with the SQL code, so no other additional text. Only use the tables and columns provided in the schema.")@
}

/// The three turns of the prompt built from `tables` and `question`,
/// exactly, in order.
pub open spec fn is_question_prompt(
    turns: Seq<ChatTurn>,
    tables: Seq<TableView>,
    question: Seq<char>,
) -> bool {
    &&& turns.len() == 3
    &&& turns[0].role == ChatRole::System
    &&& turns[0].content@ == system_turn_text()
    &&& turns[1].role == ChatRole::User
    &&& turns[1].content@ == schema_turn_text(tables)
    &&& turns[2].role == ChatRole::User
    &&& turns[2].content@ == question_turn_text(question)
}

/// Builds the three-turn prompt for `question` over the schema
/// description `db`.
pub fn question_prompt(db: &DatabaseDescription, question: &str) -> (turns: Vec<ChatTurn>)
    ensures
        is_question_prompt(turns@, db@, question@),
{
    let mut turns: Vec<ChatTurn> = Vec::new();
    turns.push(
        ChatTurn { role: ChatRole::System, content: String::from_str("You are a PostgreSQL expert") },
    );
    let mut schema_text = String::from_str("My Postgres database schema looks like this:\n");
    let rendered = db.render_expanded();
    schema_text.append(rendered.as_str());
    schema_text.append(".");
    turns.push(ChatTurn { role: ChatRole::User, content: schema_text });
    let mut question_text = String::from_str(
        "Given that schema, could you give me a PostgreSQL query to do the following action: ",
    );
    question_text.append(question);
    question_text.append(
        ".\n Only respond with the SQL code, so no other additional text. Only use the tables and columns provided in the schema.",
    );
    turns.push(ChatTurn { role: ChatRole::User, content: question_text });
    turns
}

} // verus!
