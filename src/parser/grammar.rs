//! The grammar as spec functions over a token sequence: each says where the
//! rule that starts at position `p` ends (the position after its last token),
//! or `None` when the tokens there do not form it.

use vstd::prelude::*;

use crate::parser::declaration::modifier_kind_of;
use crate::stream::TokenStream;
use crate::token::{Token, TokenKind};
use crate::type_syntax::callable_kind_of;

verus! {

/// A parse from `old` to `new` succeeded exactly when the grammar says the
/// rule stands there, and then stopped where the grammar says it ends.
pub open spec fn follows(ok: bool, old: TokenStream, new: TokenStream, end: Option<int>) -> bool {
    &&& ok <==> end is Some
    &&& ok ==> new.position == end->Some_0
}

/// The kind of the token at `p`, if there is one.
pub open spec fn kind(t: Seq<Token>, p: int) -> Option<TokenKind> {
    if 0 <= p < t.len() {
        Some(t[p].kind)
    } else {
        None
    }
}

/// The token at `p` has kind `k`.
pub open spec fn kind_is(t: Seq<Token>, p: int, k: TokenKind) -> bool {
    kind(t, p) == Some(k)
}

/// `;` or a closing tag.
pub open spec fn terminator_end(t: Seq<Token>, p: int) -> Option<int> {
    if kind_is(t, p, TokenKind::Semicolon) || kind_is(t, p, TokenKind::CloseTag) {
        Some(p + 1)
    } else {
        None
    }
}

/// A variable, a literal, a name, or a name and an argument list.
pub open spec fn expression_end(t: Seq<Token>, p: int) -> Option<int>
    decreases t.len() - p, 0int,
{
    if kind_is(t, p, TokenKind::Variable) || kind_is(t, p, TokenKind::IntegerLiteral) || kind_is(t, p, TokenKind::StringLiteral) {
        Some(p + 1)
    } else if kind_is(t, p, TokenKind::Identifier) {
        if kind_is(t, p + 1, TokenKind::LeftParenthesis) {
            argument_list_end(t, p + 1)
        } else {
            Some(p + 1)
        }
    } else {
        None
    }
}

/// `( arguments )`
pub open spec fn argument_list_end(t: Seq<Token>, p: int) -> Option<int>
    decreases t.len() - p, 3int,
{
    if kind_is(t, p, TokenKind::LeftParenthesis) {
        arguments_end(t, p + 1)
    } else {
        None
    }
}

/// The arguments after `(` or after a comma, through the closing `)`.
pub open spec fn arguments_end(t: Seq<Token>, p: int) -> Option<int>
    decreases t.len() - p, 2int,
{
    if kind(t, p) is None {
        None
    } else if kind_is(t, p, TokenKind::RightParenthesis) {
        Some(p + 1)
    } else {
        match argument_end(t, p) {
            Some(e) => if p < e <= t.len() && kind_is(t, e, TokenKind::Comma) {
                arguments_end(t, e + 1)
            } else if kind_is(t, e, TokenKind::RightParenthesis) {
                Some(e + 1)
            } else {
                None
            },
            None => None,
        }
    }
}

/// `name: value`, `...value` or `value`.
pub open spec fn argument_end(t: Seq<Token>, p: int) -> Option<int>
    decreases t.len() - p, 1int,
{
    if kind_is(t, p, TokenKind::Identifier) && kind_is(t, p + 1, TokenKind::Colon) {
        expression_end(t, p + 2)
    } else if kind_is(t, p, TokenKind::Ellipsis) {
        expression_end(t, p + 1)
    } else {
        expression_end(t, p)
    }
}

/// The modifiers from `p` on; never fails.
pub open spec fn modifiers_end(t: Seq<Token>, p: int) -> int
    decreases t.len() - p,
{
    if kind(t, p) matches Some(k) && modifier_kind_of(k) is Some {
        modifiers_end(t, p + 1)
    } else {
        p
    }
}

/// `NAME = value`
pub open spec fn constant_item_end(t: Seq<Token>, p: int) -> Option<int> {
    if kind_is(t, p, TokenKind::Identifier) && kind_is(t, p + 1, TokenKind::Equals) {
        expression_end(t, p + 2)
    } else {
        None
    }
}

/// Constant items separated by commas, no trailing comma.
pub open spec fn constant_items_end(t: Seq<Token>, p: int) -> Option<int>
    decreases t.len() - p,
{
    match constant_item_end(t, p) {
        Some(e) => if p < e <= t.len() && kind_is(t, e, TokenKind::Comma) {
            constant_items_end(t, e + 1)
        } else {
            Some(e)
        },
        None => None,
    }
}

/// `[modifiers] const [hint] items ;`
pub open spec fn class_like_constant_end(t: Seq<Token>, p: int) -> Option<int> {
    let m = modifiers_end(t, p);
    if !kind_is(t, m, TokenKind::Const) {
        None
    } else {
        let h = if kind_is(t, m + 1, TokenKind::Identifier) && kind_is(t, m + 2, TokenKind::Identifier) {
            m + 2
        } else {
            m + 1
        };
        match constant_items_end(t, h) {
            Some(e) => terminator_end(t, e),
            None => None,
        }
    }
}

/// Class members up to the closing `}`: the position of that `}`.
pub open spec fn members_end(t: Seq<Token>, p: int) -> Option<int>
    decreases t.len() - p,
{
    if kind_is(t, p, TokenKind::RightBrace) {
        Some(p)
    } else {
        match class_like_constant_end(t, p) {
            Some(e) => if p < e <= t.len() {
                members_end(t, e)
            } else {
                None
            },
            None => None,
        }
    }
}

/// `class Name { members }`
pub open spec fn class_end(t: Seq<Token>, p: int) -> Option<int> {
    if kind_is(t, p, TokenKind::Class) && kind_is(t, p + 1, TokenKind::Identifier) && kind_is(t, p + 2, TokenKind::LeftBrace) {
        match members_end(t, p + 3) {
            Some(b) => Some(b + 1),
            None => None,
        }
    } else {
        None
    }
}

/// Attribute names after `#[` or a comma, through `]`.
pub open spec fn attributes_end(t: Seq<Token>, p: int) -> Option<int>
    decreases t.len() - p,
{
    if kind_is(t, p, TokenKind::RightBracket) {
        Some(p + 1)
    } else if kind_is(t, p, TokenKind::Identifier) {
        if kind_is(t, p + 1, TokenKind::Comma) {
            attributes_end(t, p + 2)
        } else if kind_is(t, p + 1, TokenKind::RightBracket) {
            Some(p + 2)
        } else {
            None
        }
    } else {
        None
    }
}

/// `#[Name, ...]`
pub open spec fn attribute_list_end(t: Seq<Token>, p: int) -> Option<int> {
    if kind_is(t, p, TokenKind::HashLeftBracket) {
        attributes_end(t, p + 1)
    } else {
        None
    }
}

/// The attribute lists from `p` on.
pub open spec fn attribute_lists_end(t: Seq<Token>, p: int) -> Option<int>
    decreases t.len() - p,
{
    if kind_is(t, p, TokenKind::HashLeftBracket) {
        match attribute_list_end(t, p) {
            Some(e) => if p < e <= t.len() {
                attribute_lists_end(t, e)
            } else {
                None
            },
            None => None,
        }
    } else {
        Some(p)
    }
}

/// Hooks after `{`, through `}`.
pub open spec fn hooks_end(t: Seq<Token>, p: int) -> Option<int>
    decreases t.len() - p,
{
    if kind_is(t, p, TokenKind::RightBrace) {
        Some(p + 1)
    } else if kind_is(t, p, TokenKind::Identifier) && terminator_end(t, p + 1) is Some {
        hooks_end(t, p + 2)
    } else {
        None
    }
}

/// `{ name; ... }`
pub open spec fn hook_list_end(t: Seq<Token>, p: int) -> Option<int> {
    if kind_is(t, p, TokenKind::LeftBrace) {
        hooks_end(t, p + 1)
    } else {
        None
    }
}

/// Where the hint of a parameter that starts its modifiers at `m` ends.
pub open spec fn parameter_hint_end(t: Seq<Token>, m: int) -> int {
    if kind_is(t, m, TokenKind::Identifier) {
        m + 1
    } else {
        m
    }
}

/// `[attributes] [modifiers] [hint] [&] [...] $variable [= value] [hooks]`
pub open spec fn parameter_end(t: Seq<Token>, p: int) -> Option<int> {
    match attribute_lists_end(t, p) {
        Some(a) => {
            let m = modifiers_end(t, a);
            let h = parameter_hint_end(t, m);
            let am = if kind_is(t, h, TokenKind::Ampersand) {
                h + 1
            } else {
                h
            };
            let el = if kind_is(t, am, TokenKind::Ellipsis) {
                am + 1
            } else {
                am
            };
            if !kind_is(t, el, TokenKind::Variable) {
                None
            } else {
                let v = el + 1;
                let d = if kind_is(t, v, TokenKind::Equals) {
                    expression_end(t, v + 1)
                } else {
                    Some(v)
                };
                match d {
                    Some(d) => if kind_is(t, d, TokenKind::LeftBrace) {
                        hook_list_end(t, d)
                    } else {
                        Some(d)
                    },
                    None => None,
                }
            }
        },
        None => None,
    }
}

/// The parameters after `(` or a comma, through `)`.
pub open spec fn parameters_end(t: Seq<Token>, p: int) -> Option<int>
    decreases t.len() - p,
{
    if kind(t, p) is None {
        None
    } else if kind_is(t, p, TokenKind::RightParenthesis) {
        Some(p + 1)
    } else {
        match parameter_end(t, p) {
            Some(e) => if p < e <= t.len() && kind_is(t, e, TokenKind::Comma) {
                parameters_end(t, e + 1)
            } else if kind_is(t, e, TokenKind::RightParenthesis) {
                Some(e + 1)
            } else {
                None
            },
            None => None,
        }
    }
}

/// `( parameters )`
pub open spec fn parameter_list_end(t: Seq<Token>, p: int) -> Option<int> {
    if kind_is(t, p, TokenKind::LeftParenthesis) {
        parameters_end(t, p + 1)
    } else {
        None
    }
}

/// Values separated by commas, no trailing comma.
pub open spec fn echo_values_end(t: Seq<Token>, p: int) -> Option<int>
    decreases t.len() - p,
{
    match expression_end(t, p) {
        Some(e) => if p < e <= t.len() && kind_is(t, e, TokenKind::Comma) {
            echo_values_end(t, e + 1)
        } else {
            Some(e)
        },
        None => None,
    }
}

/// `echo values ;`
pub open spec fn echo_end(t: Seq<Token>, p: int) -> Option<int> {
    if kind_is(t, p, TokenKind::Echo) {
        match echo_values_end(t, p + 1) {
            Some(e) => terminator_end(t, e),
            None => None,
        }
    } else {
        None
    }
}

/// `goto label ;`
pub open spec fn goto_end(t: Seq<Token>, p: int) -> Option<int> {
    if kind_is(t, p, TokenKind::Goto) && kind_is(t, p + 1, TokenKind::Identifier) {
        terminator_end(t, p + 2)
    } else {
        None
    }
}

/// An expression and its terminator.
pub open spec fn expression_statement_end(t: Seq<Token>, p: int) -> Option<int> {
    match expression_end(t, p) {
        Some(e) => terminator_end(t, e),
        None => None,
    }
}

/// A name and its optional alias.
pub open spec fn use_item_end(t: Seq<Token>, q: int) -> Option<int> {
    if kind_is(t, q, TokenKind::Identifier) {
        if kind_is(t, q + 1, TokenKind::As) {
            if kind_is(t, q + 2, TokenKind::Identifier) {
                Some(q + 3)
            } else {
                None
            }
        } else {
            Some(q + 1)
        }
    } else {
        None
    }
}

/// `function` or `const` stands at `q`.
pub open spec fn use_type_at(t: Seq<Token>, q: int) -> bool {
    kind_is(t, q, TokenKind::Function) || kind_is(t, q, TokenKind::Const)
}

/// Use items separated by commas, no trailing comma.
pub open spec fn use_sequence_end(t: Seq<Token>, q: int) -> Option<int>
    decreases t.len() - q,
{
    match use_item_end(t, q) {
        Some(e) => if q < e <= t.len() && kind_is(t, e, TokenKind::Comma) {
            use_sequence_end(t, e + 1)
        } else {
            Some(e)
        },
        None => None,
    }
}

/// The items of a braced list from `q` on: the position of the closing `}`.
pub open spec fn use_braced_end(t: Seq<Token>, q: int, mixed: bool) -> Option<int>
    decreases t.len() - q,
{
    if kind(t, q) is None {
        None
    } else if kind_is(t, q, TokenKind::RightBrace) {
        Some(q)
    } else {
        let r = if mixed && use_type_at(t, q) {
            q + 1
        } else {
            q
        };
        match use_item_end(t, r) {
            Some(e) => if q < e <= t.len() && kind_is(t, e, TokenKind::Comma) {
                use_braced_end(t, e + 1, mixed)
            } else if kind_is(t, e, TokenKind::RightBrace) {
                Some(e)
            } else {
                None
            },
            None => None,
        }
    }
}

/// The items of a `use` import, in the shape that the tokens at `q` select.
pub open spec fn use_items_grammar_end(t: Seq<Token>, q: int) -> Option<int> {
    if use_type_at(t, q) {
        if kind_is(t, q + 2, TokenKind::NamespaceSeparator) {
            if kind_is(t, q + 1, TokenKind::Identifier) && kind_is(t, q + 3, TokenKind::LeftBrace) {
                match use_braced_end(t, q + 4, false) {
                    Some(b) => Some(b + 1),
                    None => None,
                }
            } else {
                None
            }
        } else {
            use_sequence_end(t, q + 1)
        }
    } else if kind_is(t, q + 1, TokenKind::NamespaceSeparator) {
        if kind_is(t, q, TokenKind::Identifier) && kind_is(t, q + 2, TokenKind::LeftBrace) {
            match use_braced_end(t, q + 3, true) {
                Some(b) => Some(b + 1),
                None => None,
            }
        } else {
            None
        }
    } else {
        use_sequence_end(t, q)
    }
}

/// `use items ;`
pub open spec fn use_statement_end(t: Seq<Token>, p: int) -> Option<int> {
    if kind_is(t, p, TokenKind::Use) {
        match use_items_grammar_end(t, p + 1) {
            Some(e) => terminator_end(t, e),
            None => None,
        }
    } else {
        None
    }
}

/// The kinds that end the statements of a colon-delimited branch.
pub open spec fn branch_stops() -> Seq<TokenKind> {
    seq![TokenKind::ElseIf, TokenKind::Else, TokenKind::EndIf]
}

/// One statement, of the kind its first tokens select.
pub open spec fn statement_end(t: Seq<Token>, p: int) -> Option<int>
    decreases t.len() - p, 1int,
{
    match kind(t, p) {
        None => None,
        Some(TokenKind::OpenTag) => Some(p + 1),
        Some(TokenKind::Use) => use_statement_end(t, p),
        Some(TokenKind::If) => if_end(t, p),
        Some(TokenKind::Echo) => echo_end(t, p),
        Some(TokenKind::Goto) => goto_end(t, p),
        Some(TokenKind::LeftBrace) => block_end(t, p),
        Some(TokenKind::Class) => class_end(t, p),
        Some(TokenKind::Function) => function_end(t, p),
        Some(TokenKind::Semicolon) => Some(p + 1),
        Some(k) => if k == TokenKind::Identifier && kind_is(t, p + 1, TokenKind::Colon) {
            Some(p + 2)
        } else {
            expression_statement_end(t, p)
        },
    }
}

/// Statements up to a token of one of the kinds `stops`: the position of that token.
pub open spec fn statements_until_end(t: Seq<Token>, p: int, stops: Seq<TokenKind>) -> Option<int>
    decreases t.len() - p, 2int,
{
    match kind(t, p) {
        None => None,
        Some(k) => if stops.contains(k) {
            Some(p)
        } else {
            match statement_end(t, p) {
                Some(e) => if p < e <= t.len() {
                    statements_until_end(t, e, stops)
                } else {
                    None
                },
                None => None,
            }
        },
    }
}

/// `{ statements }`
pub open spec fn block_end(t: Seq<Token>, p: int) -> Option<int>
    decreases t.len() - p, 0int,
{
    if kind_is(t, p, TokenKind::LeftBrace) {
        match statements_until_end(t, p + 1, seq![TokenKind::RightBrace]) {
            Some(e) => Some(e + 1),
            None => None,
        }
    } else {
        None
    }
}

/// `function name(parameters) { body }`
pub open spec fn function_end(t: Seq<Token>, p: int) -> Option<int>
    decreases t.len() - p, 0int,
{
    if kind_is(t, p, TokenKind::Function) && kind_is(t, p + 1, TokenKind::Identifier) {
        match parameter_list_end(t, p + 2) {
            Some(e) => if p < e <= t.len() {
                block_end(t, e)
            } else {
                None
            },
            None => None,
        }
    } else {
        None
    }
}

/// `if (condition)` and a body.
pub open spec fn if_end(t: Seq<Token>, p: int) -> Option<int>
    decreases t.len() - p, 0int,
{
    if kind_is(t, p, TokenKind::If) && kind_is(t, p + 1, TokenKind::LeftParenthesis) {
        match expression_end(t, p + 2) {
            Some(c) => if p < c <= t.len() && kind_is(t, c, TokenKind::RightParenthesis) {
                if_body_end(t, c + 1)
            } else {
                None
            },
            None => None,
        }
    } else {
        None
    }
}

/// A colon-delimited body when `:` comes first, a statement body otherwise.
pub open spec fn if_body_end(t: Seq<Token>, p: int) -> Option<int>
    decreases t.len() - p, 5int,
{
    if kind(t, p) is None {
        None
    } else if kind_is(t, p, TokenKind::Colon) {
        colon_body_end(t, p)
    } else {
        statement_body_end(t, p)
    }
}

/// `statement [elseif (c) statement]* [else statement]`
pub open spec fn statement_body_end(t: Seq<Token>, p: int) -> Option<int>
    decreases t.len() - p, 3int,
{
    match statement_end(t, p) {
        Some(e) => if p < e <= t.len() {
            match else_ifs_end(t, e) {
                Some(f) => if e <= f <= t.len() {
                    else_end(t, f)
                } else {
                    None
                },
                None => None,
            }
        } else {
            None
        },
        None => None,
    }
}

/// The `elseif` clauses of a statement body from `p` on.
pub open spec fn else_ifs_end(t: Seq<Token>, p: int) -> Option<int>
    decreases t.len() - p, 1int,
{
    if kind_is(t, p, TokenKind::ElseIf) {
        match else_if_clause_end(t, p) {
            Some(e) => if p < e <= t.len() {
                else_ifs_end(t, e)
            } else {
                None
            },
            None => None,
        }
    } else {
        Some(p)
    }
}

/// `elseif (condition) statement`
pub open spec fn else_if_clause_end(t: Seq<Token>, p: int) -> Option<int>
    decreases t.len() - p, 0int,
{
    if kind_is(t, p, TokenKind::ElseIf) && kind_is(t, p + 1, TokenKind::LeftParenthesis) {
        match expression_end(t, p + 2) {
            Some(c) => if p < c <= t.len() && kind_is(t, c, TokenKind::RightParenthesis) {
                statement_end(t, c + 1)
            } else {
                None
            },
            None => None,
        }
    } else {
        None
    }
}

/// The `else` clause of a statement body, if `else` comes next.
pub open spec fn else_end(t: Seq<Token>, p: int) -> Option<int>
    decreases t.len() - p, 1int,
{
    if kind_is(t, p, TokenKind::Else) {
        else_clause_end(t, p)
    } else {
        Some(p)
    }
}

/// `else statement`
pub open spec fn else_clause_end(t: Seq<Token>, p: int) -> Option<int>
    decreases t.len() - p, 0int,
{
    if kind_is(t, p, TokenKind::Else) {
        statement_end(t, p + 1)
    } else {
        None
    }
}

/// `: statements [elseif (c): statements]* [else: statements] endif ;`
pub open spec fn colon_body_end(t: Seq<Token>, p: int) -> Option<int>
    decreases t.len() - p, 4int,
{
    if kind_is(t, p, TokenKind::Colon) {
        match statements_until_end(t, p + 1, branch_stops()) {
            Some(s) => if p < s <= t.len() {
                colon_tail_end(t, s)
            } else {
                None
            },
            None => None,
        }
    } else {
        None
    }
}

/// What follows the first statements of a colon-delimited body at `s`:
/// `elseif` clauses, an optional `else` clause, `endif` and a terminator.
pub open spec fn colon_tail_end(t: Seq<Token>, s: int) -> Option<int>
    decreases t.len() - s, 3int,
{
    match colon_else_ifs_end(t, s) {
        Some(f) => if s <= f <= t.len() {
            match colon_else_end(t, f) {
                Some(g) => if kind_is(t, g, TokenKind::EndIf) {
                    terminator_end(t, g + 1)
                } else {
                    None
                },
                None => None,
            }
        } else {
            None
        },
        None => None,
    }
}

/// The `elseif` clauses of a colon-delimited body from `p` on.
pub open spec fn colon_else_ifs_end(t: Seq<Token>, p: int) -> Option<int>
    decreases t.len() - p, 1int,
{
    if kind_is(t, p, TokenKind::ElseIf) {
        match colon_else_if_clause_end(t, p) {
            Some(e) => if p < e <= t.len() {
                colon_else_ifs_end(t, e)
            } else {
                None
            },
            None => None,
        }
    } else {
        Some(p)
    }
}

/// `elseif (condition):`
pub open spec fn colon_else_if_header_end(t: Seq<Token>, p: int) -> Option<int> {
    if kind_is(t, p, TokenKind::ElseIf) && kind_is(t, p + 1, TokenKind::LeftParenthesis) {
        match expression_end(t, p + 2) {
            Some(c) => if p < c <= t.len() && kind_is(t, c, TokenKind::RightParenthesis) && kind_is(t, c + 1, TokenKind::Colon) {
                Some(c + 2)
            } else {
                None
            },
            None => None,
        }
    } else {
        None
    }
}

/// `elseif (condition): statements`, up to the next `elseif`, `else` or `endif`.
pub open spec fn colon_else_if_clause_end(t: Seq<Token>, p: int) -> Option<int>
    decreases t.len() - p, 0int,
{
    match colon_else_if_header_end(t, p) {
        Some(h) => if p < h <= t.len() {
            statements_until_end(t, h, branch_stops())
        } else {
            None
        },
        None => None,
    }
}

/// The `else` clause of a colon-delimited body, if `else` comes next.
pub open spec fn colon_else_end(t: Seq<Token>, p: int) -> Option<int>
    decreases t.len() - p, 1int,
{
    if kind_is(t, p, TokenKind::Else) {
        colon_else_clause_end(t, p)
    } else {
        Some(p)
    }
}

/// `else: statements`, up to `endif`.
pub open spec fn colon_else_clause_end(t: Seq<Token>, p: int) -> Option<int>
    decreases t.len() - p, 0int,
{
    if kind_is(t, p, TokenKind::Else) && kind_is(t, p + 1, TokenKind::Colon) {
        statements_until_end(t, p + 2, seq![TokenKind::EndIf])
    } else {
        None
    }
}

/// Statements up to the end of the tokens.
pub open spec fn program_end(t: Seq<Token>, p: int) -> Option<int>
    decreases t.len() - p,
{
    if p >= t.len() {
        Some(p)
    } else {
        match statement_end(t, p) {
            Some(e) => if p < e <= t.len() {
                program_end(t, e)
            } else {
                None
            },
            None => None,
        }
    }
}

/// A type: a callable type when a callable keyword comes first, a name otherwise.
pub open spec fn type_end(t: Seq<Token>, p: int) -> Option<int>
    decreases t.len() - p, 1int,
{
    if kind(t, p) matches Some(k) && callable_kind_of(k) is Some {
        callable_type_end(t, p)
    } else if kind_is(t, p, TokenKind::Identifier) {
        Some(p + 1)
    } else {
        None
    }
}

/// A callable keyword, a parameter list if `(` follows, a return type if `:` follows the list.
pub open spec fn callable_type_end(t: Seq<Token>, p: int) -> Option<int>
    decreases t.len() - p, 0int,
{
    if kind(t, p) matches Some(k) && callable_kind_of(k) is Some {
        if kind_is(t, p + 1, TokenKind::LeftParenthesis) {
            match type_parameters_end(t, p + 2) {
                Some(e) => if e > p && kind_is(t, e, TokenKind::Colon) {
                    type_end(t, e + 1)
                } else {
                    Some(e)
                },
                None => None,
            }
        } else {
            Some(p + 1)
        }
    } else {
        None
    }
}

/// Callable parameters after `(` or a comma, through `)`.
pub open spec fn type_parameters_end(t: Seq<Token>, p: int) -> Option<int>
    decreases t.len() - p, 2int,
{
    if kind_is(t, p, TokenKind::RightParenthesis) {
        Some(p + 1)
    } else {
        match type_end(t, p) {
            Some(e) => {
                let e1 = if kind_is(t, e, TokenKind::Equals) || kind_is(t, e, TokenKind::Ellipsis) {
                    e + 1
                } else {
                    e
                };
                if e > p && kind_is(t, e1, TokenKind::Comma) {
                    type_parameters_end(t, e1 + 1)
                } else if kind_is(t, e1, TokenKind::RightParenthesis) {
                    Some(e1 + 1)
                } else {
                    None
                }
            },
            None => None,
        }
    }
}

} // verus!
