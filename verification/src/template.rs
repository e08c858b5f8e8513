//! A tiny template renderer for build-time text artifacts.
//!
//! Supported syntax, a small conditional subset:
//! - `{% if <ident> %} ... {% else %} ... {% endif %}` over boolean
//!   identifiers;
//! - `{{ <ident> }}` interpolation of string identifiers.
//!
//! No expressions, no filters, no loops. Positions reported in errors
//! count characters from the start of the template.

use crate::strings::{
    find_spec, has_prefix, lemma_find_spec_props, str_eq_str, str_find, str_starts_with, trim_idx,
    trim_spec,
};
use vstd::prelude::*;
use vstd::string::StrSliceExecFns;
use vstd::string::StringExecFns;

verus! {

/// The value registered under `name`, with the latest registration
/// winning.
pub open spec fn lookup<V>(entries: Seq<(Seq<char>, V)>, name: Seq<char>) -> Option<V>
    decreases entries.len(),
{
    if entries.len() == 0 {
        None
    } else if entries.last().0 == name {
        Some(entries.last().1)
    } else {
        lookup(entries.drop_last(), name)
    }
}

/// The identifiers a template is rendered against: boolean identifiers
/// for conditionals and string identifiers for interpolation.
#[derive(Debug, Clone, Default)]
pub struct Context {
    bools: Vec<(String, bool)>,
    strs: Vec<(String, String)>,
}

impl Context {
    /// The registered boolean identifiers, names as character
    /// sequences, in registration order.
    pub closed spec fn bools_view(&self) -> Seq<(Seq<char>, bool)> {
        self.bools@.map_values(|p: (String, bool)| (p.0@, p.1))
    }

    /// The registered string identifiers, names and values as
    /// character sequences, in registration order.
    pub closed spec fn strs_view(&self) -> Seq<(Seq<char>, Seq<char>)> {
        self.strs@.map_values(|p: (String, String)| (p.0@, p.1@))
    }

    /// The boolean registered under `name`.
    pub open spec fn bool_of(&self, name: Seq<char>) -> Option<bool> {
        lookup(self.bools_view(), name)
    }

    /// The string registered under `name`.
    pub open spec fn str_of(&self, name: Seq<char>) -> Option<Seq<char>> {
        lookup(self.strs_view(), name)
    }

    /// An empty context.
    pub fn new() -> (ctx: Context)
        ensures
            ctx.bools_view() == Seq::<(Seq<char>, bool)>::empty(),
            ctx.strs_view() == Seq::<(Seq<char>, Seq<char>)>::empty(),
    {
        let ctx = Context { bools: Vec::new(), strs: Vec::new() };
        proof {
            assert(ctx.bools_view() =~= Seq::<(Seq<char>, bool)>::empty());
            assert(ctx.strs_view() =~= Seq::<(Seq<char>, Seq<char>)>::empty());
        }
        ctx
    }

    /// Register the boolean `value` under `name`, shadowing any earlier
    /// registration of the same name.
    pub fn insert_bool(&mut self, name: &str, value: bool)
        ensures
            final(self).bools_view() == old(self).bools_view().push((name@, value)),
            final(self).strs_view() == old(self).strs_view(),
            final(self).bool_of(name@) == Some(value),
            forall|n: Seq<char>|
                n != name@ ==> #[trigger] final(self).bool_of(n) == old(self).bool_of(n),
    {
        self.bools.push((name.to_owned(), value));
        proof {
            assert(self.bools_view() =~= old(self).bools_view().push((name@, value)));
            assert(self.bools_view().drop_last() =~= old(self).bools_view());
        }
    }

    /// Register `value` under `name` and hand the context back.
    pub fn with_bool(self, name: &str, value: bool) -> (ctx: Context)
        ensures
            ctx.bools_view() == self.bools_view().push((name@, value)),
            ctx.strs_view() == self.strs_view(),
            ctx.bool_of(name@) == Some(value),
            forall|n: Seq<char>| n != name@ ==> #[trigger] ctx.bool_of(n) == self.bool_of(n),
    {
        let mut c = self;
        c.insert_bool(name, value);
        c
    }

    /// Register the string `value` under `name`, shadowing any earlier
    /// registration of the same name.
    pub fn insert_str(&mut self, name: &str, value: &str)
        ensures
            final(self).strs_view() == old(self).strs_view().push((name@, value@)),
            final(self).bools_view() == old(self).bools_view(),
            final(self).str_of(name@) == Some(value@),
            forall|n: Seq<char>|
                n != name@ ==> #[trigger] final(self).str_of(n) == old(self).str_of(n),
    {
        self.strs.push((name.to_owned(), value.to_owned()));
        proof {
            assert(self.strs_view() =~= old(self).strs_view().push((name@, value@)));
            assert(self.strs_view().drop_last() =~= old(self).strs_view());
        }
    }

    /// Register `value` under `name` and hand the context back.
    pub fn with_str(self, name: &str, value: &str) -> (ctx: Context)
        ensures
            ctx.strs_view() == self.strs_view().push((name@, value@)),
            ctx.bools_view() == self.bools_view(),
            ctx.str_of(name@) == Some(value@),
            forall|n: Seq<char>| n != name@ ==> #[trigger] ctx.str_of(n) == self.str_of(n),
    {
        let mut c = self;
        c.insert_str(name, value);
        c
    }

    /// Look up the boolean registered under `name`.
    pub fn get_bool(&self, name: &str) -> (r: Option<bool>)
        ensures
            r == self.bool_of(name@),
    {
        let ghost v = self.bools_view();
        let mut i: usize = self.bools.len();
        proof {
            assert(v.take(i as int) =~= v);
        }
        while i > 0
            invariant
                v == self.bools_view(),
                i <= v.len(),
                lookup(v, name@) == lookup(v.take(i as int), name@),
            decreases i,
        {
            let idx = i - 1;
            proof {
                assert(v.take(i as int).last() == v[idx as int]);
                assert(v.take(i as int).drop_last() =~= v.take(idx as int));
            }
            if str_eq_str(self.bools[idx].0.as_str(), name) {
                return Some(self.bools[idx].1);
            }
            i = idx;
        }
        assert(v.take(0) =~= Seq::<(Seq<char>, bool)>::empty());
        None
    }

    /// Look up the string registered under `name`.
    pub fn get_str(&self, name: &str) -> (r: Option<String>)
        ensures
            match r {
                Some(v) => self.str_of(name@) == Some(v@),
                None => self.str_of(name@) is None,
            },
    {
        let ghost v = self.strs_view();
        let mut i: usize = self.strs.len();
        proof {
            assert(v.take(i as int) =~= v);
        }
        while i > 0
            invariant
                v == self.strs_view(),
                i <= v.len(),
                lookup(v, name@) == lookup(v.take(i as int), name@),
            decreases i,
        {
            let idx = i - 1;
            proof {
                assert(v.take(i as int).last() == v[idx as int]);
                assert(v.take(i as int).drop_last() =~= v.take(idx as int));
            }
            if str_eq_str(self.strs[idx].0.as_str(), name) {
                return Some(self.strs[idx].1.clone());
            }
            i = idx;
        }
        assert(v.take(0) =~= Seq::<(Seq<char>, Seq<char>)>::empty());
        None
    }
}

/// A rendering failure: what went wrong and where in the template,
/// counted in characters.
#[derive(Debug, Clone)]
pub struct RenderError {
    /// What went wrong.
    pub message: String,
    /// Where in the template, counted in characters from the start.
    pub byte_offset: usize,
}

/// One open `{% if %}` block: which branch it selected and whether its
/// `{% else %}` has been seen.
#[derive(Debug, Clone, Copy, PartialEq, Eq, Structural)]
pub struct Frame {
    /// The condition's value.
    pub cond_true: bool,
    /// Whether rendering is past this block's `{% else %}`.
    pub in_else: bool,
}

/// A frame lets text through when its selected branch is the one being
/// rendered.
pub open spec fn frame_active(f: Frame) -> bool {
    if f.in_else {
        !f.cond_true
    } else {
        f.cond_true
    }
}

/// Text is emitted only when every open block selects the branch being
/// rendered.
pub open spec fn all_active(stack: Seq<Frame>) -> bool {
    forall|i: int| 0 <= i < stack.len() ==> frame_active(#[trigger] stack[i])
}

/// Whether the block structure currently lets text through.
pub fn should_emit(stack: &Vec<Frame>) -> (r: bool)
    ensures
        r == all_active(stack@),
{
    let mut i: usize = 0;
    let n = stack.len();
    while i < n
        invariant
            i <= n,
            n == stack@.len(),
            forall|j: int| 0 <= j < i ==> frame_active(#[trigger] stack@[j]),
        decreases n - i,
    {
        let f = stack[i];
        let active = if f.in_else {
            !f.cond_true
        } else {
            f.cond_true
        };
        if !active {
            return false;
        }
        i = i + 1;
    }
    true
}

/// One step target of the rendering interpreter: which opener comes
/// first from position `i`, and whether it is a control tag.
pub open spec fn next_opener(t: Seq<char>, i: int) -> Option<(int, bool)> {
    let nc = find_spec(t, seq!['{', '%'], i);
    let ne = find_spec(t, seq!['{', '{'], i);
    match (nc, ne) {
        (Option::None, Option::None) => None,
        (Option::Some(a), Option::None) => Some((a, true)),
        (Option::None, Option::Some(b)) => Some((b, false)),
        (Option::Some(a), Option::Some(b)) => if a <= b {
            Some((a, true))
        } else {
            Some((b, false))
        },
    }
}

/// The rendering interpreter, from position `i` with the given open
/// blocks and output so far: the rendered text, or the position where
/// rendering fails together with the message it fails with.
pub open spec fn render_from(
    t: Seq<char>,
    bools: Seq<(Seq<char>, bool)>,
    strs: Seq<(Seq<char>, Seq<char>)>,
    i: int,
    stack: Seq<Frame>,
    out: Seq<char>,
) -> Result<Seq<char>, (int, Seq<char>)>
    decreases t.len() - i,
    when 0 <= i
    via render_from_dec
{
    if i >= t.len() {
        if stack.len() != 0 {
            Err(((t.len() as int), "Unclosed {% if %} block(s)"@))
        } else {
            Ok(out)
        }
    } else {
        match next_opener(t, i) {
            Option::None => {
                let out2 = if all_active(stack) {
                    out + t.subrange(i, t.len() as int)
                } else {
                    out
                };
                if stack.len() != 0 {
                    Err(((t.len() as int), "Unclosed {% if %} block(s)"@))
                } else {
                    Ok(out2)
                }
            },
            Option::Some((open, is_ctrl)) => {
                let out2 = if all_active(stack) {
                    out + t.subrange(i, open)
                } else {
                    out
                };
                if is_ctrl {
                    match find_spec(t, seq!['%', '}'], open + 2) {
                        Option::None => Err((open, "Unclosed template tag"@)),
                        Option::Some(close) => {
                            let content = t.subrange(open + 2, close);
                            let tb = trim_spec(content);
                            let tag = content.subrange(tb.0, tb.1);
                            if tag == seq!['e', 'l', 's', 'e'] {
                                if stack.len() == 0 {
                                    Err((open, "{% else %} without matching {% if ... %}"@))
                                } else if stack.last().in_else {
                                    Err(
                                        (
                                            open,
                                            "Duplicate {% else %} in the same {% if %} block"@,
                                        ),
                                    )
                                } else {
                                    render_from(
                                        t,
                                        bools,
                                        strs,
                                        close + 2,
                                        stack.update(
                                            stack.len() - 1,
                                            Frame {
                                                cond_true: stack.last().cond_true,
                                                in_else: true,
                                            },
                                        ),
                                        out2,
                                    )
                                }
                            } else if tag == seq!['e', 'n', 'd', 'i', 'f'] {
                                if stack.len() == 0 {
                                    Err((open, "{% endif %} without matching {% if ... %}"@))
                                } else {
                                    render_from(t, bools, strs, close + 2, stack.drop_last(), out2)
                                }
                            } else if has_prefix(tag, seq!['i', 'f', ' ']) {
                                let cond = tag.subrange(3, tag.len() as int);
                                let ib = trim_spec(cond);
                                let ident = cond.subrange(ib.0, ib.1);
                                if ident.len() == 0 {
                                    Err((open, "Empty identifier in {% if %}"@))
                                } else {
                                    match lookup(bools, ident) {
                                        Option::None => Err(
                                            (
                                                open,
                                                "Unknown boolean identifier in template: "@
                                                    + ident,
                                            ),
                                        ),
                                        Option::Some(b) => render_from(
                                            t,
                                            bools,
                                            strs,
                                            close + 2,
                                            stack.push(Frame { cond_true: b, in_else: false }),
                                            out2,
                                        ),
                                    }
                                }
                            } else {
                                Err((open, "Unknown template tag: {% "@ + tag + " %}"@))
                            }
                        },
                    }
                } else {
                    match find_spec(t, seq!['}', '}'], open + 2) {
                        Option::None => Err((open, "Unclosed template expression"@)),
                        Option::Some(close) => {
                            let content = t.subrange(open + 2, close);
                            let tb = trim_spec(content);
                            let ident = content.subrange(tb.0, tb.1);
                            if all_active(stack) {
                                if ident.len() == 0 {
                                    Err((open, "Empty identifier in {{ ... }}"@))
                                } else {
                                    match lookup(strs, ident) {
                                        Option::None => Err(
                                            (
                                                open,
                                                "Unknown string identifier in template: "@
                                                    + ident,
                                            ),
                                        ),
                                        Option::Some(v) => render_from(
                                            t,
                                            bools,
                                            strs,
                                            close + 2,
                                            stack,
                                            out2 + v,
                                        ),
                                    }
                                }
                            } else {
                                render_from(t, bools, strs, close + 2, stack, out2)
                            }
                        },
                    }
                }
            },
        }
    }
}

#[via_fn]
proof fn render_from_dec(
    t: Seq<char>,
    bools: Seq<(Seq<char>, bool)>,
    strs: Seq<(Seq<char>, Seq<char>)>,
    i: int,
    stack: Seq<Frame>,
    out: Seq<char>,
) {
    lemma_find_spec_props(t, seq!['{', '%'], i);
    lemma_find_spec_props(t, seq!['{', '{'], i);
    if 0 <= i < t.len() {
        match next_opener(t, i) {
            Option::None => {},
            Option::Some((open, is_ctrl)) => {
                assert(i <= open);
                lemma_find_spec_props(t, seq!['%', '}'], open + 2);
                lemma_find_spec_props(t, seq!['}', '}'], open + 2);
            },
        }
    }
}

/// What rendering a whole template against a context produces: the
/// rendered text, or the position and message rendering fails with.
pub open spec fn render_spec(
    t: Seq<char>,
    bools: Seq<(Seq<char>, bool)>,
    strs: Seq<(Seq<char>, Seq<char>)>,
) -> Result<Seq<char>, (int, Seq<char>)> {
    render_from(t, bools, strs, 0, Seq::empty(), Seq::empty())
}

/// Render `template` against `ctx`: emit literal text and interpolated
/// string identifiers along the branches the boolean identifiers
/// select, or report the position and message of the first failure.
pub fn render(template: &str, ctx: &Context) -> (r: Result<String, RenderError>)
    ensures
        match r {
            Ok(out) => render_spec(template@, ctx.bools_view(), ctx.strs_view()) == Ok::<
                Seq<char>,
                (int, Seq<char>),
            >(out@),
            Err(e) => render_spec(template@, ctx.bools_view(), ctx.strs_view()) == Err::<
                Seq<char>,
                (int, Seq<char>),
            >((e.byte_offset as int, e.message@)),
        },
{
    let ghost t = template@;
    let ghost gbools = ctx.bools_view();
    let ghost gstrs = ctx.strs_view();

    let len = template.unicode_len();
    let mut out = String::new();
    let mut stack: Vec<Frame> = Vec::new();
    let mut i: usize = 0;

    let tag_open = "{%";
    let expr_open = "{{";
    let tag_close = "%}";
    let expr_close = "}}";
    proof {
        reveal_strlit("{%");
        reveal_strlit("{{");
        reveal_strlit("%}");
        reveal_strlit("}}");
        assert(tag_open@ =~= seq!['{', '%']);
        assert(expr_open@ =~= seq!['{', '{']);
        assert(tag_close@ =~= seq!['%', '}']);
        assert(expr_close@ =~= seq!['}', '}']);
    }

    while i < len
        invariant_except_break
            render_from(t, gbools, gstrs, i as int, stack@, out@) == render_spec(t, gbools, gstrs),
        invariant
            i <= len,
            len == t.len(),
            t == template@,
            gbools == ctx.bools_view(),
            gstrs == ctx.strs_view(),
            tag_open@ == seq!['{', '%'],
            expr_open@ == seq!['{', '{'],
            tag_close@ == seq!['%', '}'],
            expr_close@ == seq!['}', '}'],
        ensures
            render_spec(t, gbools, gstrs) == (if stack@.len() != 0 {
                Err::<Seq<char>, (int, Seq<char>)>(((len as int), "Unclosed {% if %} block(s)"@))
            } else {
                Ok::<Seq<char>, (int, Seq<char>)>(out@)
            }),
        decreases len - i,
    {
        let ghost i0 = i as int;
        let ghost stack0 = stack@;
        let ghost out0 = out@;

        proof {
            lemma_find_spec_props(t, tag_open@, i0);
            lemma_find_spec_props(t, expr_open@, i0);
        }
        let next_ctrl = str_find(template, tag_open, i);
        let next_expr = str_find(template, expr_open, i);
        let open_opt: Option<(usize, bool)> = match (next_ctrl, next_expr) {
            (None, None) => None,
            (Some(a), None) => Some((a, true)),
            (None, Some(b)) => Some((b, false)),
            (Some(a), Some(b)) => if a <= b {
                Some((a, true))
            } else {
                Some((b, false))
            },
        };
        proof {
            match open_opt {
                Option::None => {
                    assert(next_opener(t, i0) is None);
                },
                Option::Some((o, c)) => {
                    assert(next_opener(t, i0) == Some((o as int, c)));
                },
            }
        }

        let (open, is_ctrl) = match open_opt {
            None => {
                if should_emit(&stack) {
                    out.append(template.substring_char(i, len));
                }
                break ;
            },
            Some(p) => p,
        };

        if should_emit(&stack) {
            out.append(template.substring_char(i, open));
        }
        let ghost out2 = out@;
        proof {
            assert(out2 == if all_active(stack0) {
                out0 + t.subrange(i0, open as int)
            } else {
                out0
            });
        }

        if is_ctrl {
            let close = match str_find(template, tag_close, open + 2) {
                None => {
                    proof {
                        assert(render_from(t, gbools, gstrs, i0, stack0, out0) == Err::<
                            Seq<char>,
                            (int, Seq<char>),
                        >((open as int, "Unclosed template tag"@)));
                    }
                    return Err(
                        RenderError {
                            message: String::from_str("Unclosed template tag"),
                            byte_offset: open,
                        },
                    );
                },
                Some(c) => c,
            };
            proof {
                lemma_find_spec_props(t, tag_close@, open + 2);
            }
            let content = template.substring_char(open + 2, close);
            let (tlo, thi) = trim_idx(content);
            let tag = content.substring_char(tlo, thi);
            let tag_offset = open;
            i = close + 2;
            proof {
                reveal_strlit("else");
                reveal_strlit("endif");
                reveal_strlit("if ");
                assert("else"@ =~= seq!['e', 'l', 's', 'e']);
                assert("endif"@ =~= seq!['e', 'n', 'd', 'i', 'f']);
                assert("if "@ =~= seq!['i', 'f', ' ']);
                assert(content@ =~= t.subrange(open as int + 2, close as int));
                assert(tag@ == t.subrange(open as int + 2, close as int).subrange(
                    tlo as int,
                    thi as int,
                ));
            }

            if str_eq_str(tag, "else") {
                if stack.len() == 0 {
                    return Err(
                        RenderError {
                            message: String::from_str(
                                "{% else %} without matching {% if ... %}",
                            ),
                            byte_offset: tag_offset,
                        },
                    );
                }
                let top = stack.len() - 1;
                if stack[top].in_else {
                    return Err(
                        RenderError {
                            message: String::from_str(
                                "Duplicate {% else %} in the same {% if %} block",
                            ),
                            byte_offset: tag_offset,
                        },
                    );
                }
                let f = stack[top];
                stack[top] = Frame { cond_true: f.cond_true, in_else: true };
                proof {
                    assert(render_from(t, gbools, gstrs, i0, stack0, out0) == render_from(
                        t,
                        gbools,
                        gstrs,
                        i as int,
                        stack@,
                        out@,
                    ));
                }
            } else if str_eq_str(tag, "endif") {
                if stack.len() == 0 {
                    return Err(
                        RenderError {
                            message: String::from_str(
                                "{% endif %} without matching {% if ... %}",
                            ),
                            byte_offset: tag_offset,
                        },
                    );
                }
                stack.pop();
                proof {
                    assert(stack@ =~= stack0.drop_last());
                    assert(render_from(t, gbools, gstrs, i0, stack0, out0) == render_from(
                        t,
                        gbools,
                        gstrs,
                        i as int,
                        stack@,
                        out@,
                    ));
                }
            } else if str_starts_with(tag, "if ") {
                let cond = tag.substring_char(3, tag.unicode_len());
                let (ilo, ihi) = trim_idx(cond);
                let ident = cond.substring_char(ilo, ihi);
                if ident.unicode_len() == 0 {
                    return Err(
                        RenderError {
                            message: String::from_str("Empty identifier in {% if %}"),
                            byte_offset: tag_offset,
                        },
                    );
                }
                let cond_true = match ctx.get_bool(ident) {
                    None => {
                        return Err(
                            RenderError {
                                message: String::from_str(
                                    "Unknown boolean identifier in template: ",
                                ).concat(ident),
                                byte_offset: tag_offset,
                            },
                        );
                    },
                    Some(b) => b,
                };
                stack.push(Frame { cond_true, in_else: false });
                proof {
                    assert(render_from(t, gbools, gstrs, i0, stack0, out0) == render_from(
                        t,
                        gbools,
                        gstrs,
                        i as int,
                        stack@,
                        out@,
                    ));
                }
            } else {
                return Err(
                    RenderError {
                        message: String::from_str("Unknown template tag: {% ").concat(tag).concat(
                            " %}",
                        ),
                        byte_offset: tag_offset,
                    },
                );
            }
        } else {
            let close = match str_find(template, expr_close, open + 2) {
                None => {
                    proof {
                        assert(render_from(t, gbools, gstrs, i0, stack0, out0) == Err::<
                            Seq<char>,
                            (int, Seq<char>),
                        >((open as int, "Unclosed template expression"@)));
                    }
                    return Err(
                        RenderError {
                            message: String::from_str("Unclosed template expression"),
                            byte_offset: open,
                        },
                    );
                },
                Some(c) => c,
            };
            proof {
                lemma_find_spec_props(t, expr_close@, open + 2);
            }
            let content = template.substring_char(open + 2, close);
            let (elo, ehi) = trim_idx(content);
            let expr_offset = open;
            i = close + 2;
            proof {
                assert(content@ =~= t.subrange(open as int + 2, close as int));
            }

            if should_emit(&stack) {
                let ident = content.substring_char(elo, ehi);
                if ident.unicode_len() == 0 {
                    return Err(
                        RenderError {
                            message: String::from_str("Empty identifier in {{ ... }}"),
                            byte_offset: expr_offset,
                        },
                    );
                }
                let val = match ctx.get_str(ident) {
                    None => {
                        return Err(
                            RenderError {
                                message: String::from_str(
                                    "Unknown string identifier in template: ",
                                ).concat(ident),
                                byte_offset: expr_offset,
                            },
                        );
                    },
                    Some(v) => v,
                };
                out.append(val.as_str());
                proof {
                    assert(render_from(t, gbools, gstrs, i0, stack0, out0) == render_from(
                        t,
                        gbools,
                        gstrs,
                        i as int,
                        stack@,
                        out@,
                    ));
                }
            } else {
                proof {
                    assert(render_from(t, gbools, gstrs, i0, stack0, out0) == render_from(
                        t,
                        gbools,
                        gstrs,
                        i as int,
                        stack@,
                        out@,
                    ));
                }
            }
        }
    }

    if stack.len() != 0 {
        return Err(
            RenderError {
                message: String::from_str("Unclosed {% if %} block(s)"),
                byte_offset: len,
            },
        );
    }

    Ok(out)
}

} // verus!
