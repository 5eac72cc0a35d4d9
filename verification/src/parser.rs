//! The tree-construction stage's decision logic, modeled over plain values:
//! the stack of open element names, the insertion modes, and the
//! reset-the-insertion-mode-appropriately rule of the HTML standard. The
//! node tree itself lives with the caller; this stage only reads the names.

use vstd::prelude::*;
use crate::chars::{str_eq, vec_eq_str};
use crate::element::ExpandedName;
use crate::namespace::Namespace;
use crate::parser_detail::{EncodingCertainty, InsertionMode};
use crate::token::{Tag, Token};

verus! {

/// The element name at a stack position, where the bottom entry is
/// replaced by the context element of a fragment parse when one is set.
pub open spec fn node_at(stack: Seq<ExpandedName>, ctx: Option<ExpandedName>, i: int) -> ExpandedName {
    if i == 0 && ctx is Some {
        ctx->0
    } else {
        stack[i]
    }
}

/// The mode a `select` at position `i` resolves to: the nearest enclosing
/// `template` keeps plain select mode, a nearer `table` switches to
/// select-in-table.
pub open spec fn spec_select_mode(stack: Seq<ExpandedName>, i: int) -> InsertionMode
    decreases i,
{
    if i <= 0 {
        InsertionMode::InSelect
    } else {
        let anc = stack[i - 1];
        if anc.ns is Html && anc.local@ == "template"@ {
            InsertionMode::InSelect
        } else if anc.ns is Html && anc.local@ == "table"@ {
            InsertionMode::InSelectInTable
        } else {
            spec_select_mode(stack, i - 1)
        }
    }
}

/// The insertion mode appropriate to a stack of open elements, per the
/// reset algorithm of the HTML standard: the topmost recognized element
/// name decides, the bottom entry standing in for the context element of a
/// fragment parse.
pub open spec fn spec_reset_mode(
    stack: Seq<ExpandedName>,
    ctx: Option<ExpandedName>,
    has_head: bool,
    tmpl: Seq<InsertionMode>,
) -> InsertionMode
    decreases stack.len(),
{
    if stack.len() == 0 {
        InsertionMode::InBody
    } else {
        let i = stack.len() - 1;
        let last = i == 0;
        let node = node_at(stack, ctx, i);
        if !(node.ns is Html) {
            spec_reset_mode(stack.take(i), ctx, has_head, tmpl)
        } else {
            let name = node.local@;
            if name == "select"@ {
                spec_select_mode(stack, i)
            } else if (name == "td"@ || name == "th"@) && !last {
                InsertionMode::InCell
            } else if name == "tr"@ {
                InsertionMode::InRow
            } else if name == "tbody"@ || name == "thead"@ || name == "tfoot"@ {
                InsertionMode::InTableBody
            } else if name == "caption"@ {
                InsertionMode::InCaption
            } else if name == "colgroup"@ {
                InsertionMode::InColumnGroup
            } else if name == "table"@ {
                InsertionMode::InTable
            } else if name == "template"@ {
                tmpl.last()
            } else if name == "head"@ && !last {
                InsertionMode::InHead
            } else if name == "body"@ {
                InsertionMode::InBody
            } else if name == "frameset"@ {
                InsertionMode::InFrameset
            } else if name == "html"@ {
                if has_head {
                    InsertionMode::AfterHead
                } else {
                    InsertionMode::BeforeHead
                }
            } else {
                spec_reset_mode(stack.take(i), ctx, has_head, tmpl)
            }
        }
    }
}

/// Whether the reset rule can reach a `template` entry, in which case the
/// template-mode stack must be non-empty for the rule to have an answer.
pub open spec fn spec_sees_template(stack: Seq<ExpandedName>, ctx: Option<ExpandedName>) -> bool {
    exists|i: int|
        0 <= i < stack.len() && (#[trigger] node_at(stack, ctx, i)).ns is Html && node_at(
            stack,
            ctx,
            i,
        ).local@ == "template"@
}

/// The tree-construction stage, over the names the tokenizer hands it. The
/// document tree itself is the caller's; this stage holds what its
/// decisions read: modes, flags, and the open elements' names.
pub struct HtmlParser {
    character_encoding: Option<EncodingCertainty>,
    insertion_mode: InsertionMode,
    orig_insertion_mode: Option<InsertionMode>,
    open_elements_stack: Vec<ExpandedName>,
    active_formatting_elements: Vec<ExpandedName>,
    head_elem: bool,
    form_elem: bool,
    scripting: bool,
    frameset_ok: bool,
    template_insertion_modes: Vec<InsertionMode>,
    foster_parenting: bool,
    script_nesting_level: u32,
    parser_pause_flag: bool,
    context_elem: Option<ExpandedName>,
}

impl HtmlParser {
    /// The names of the open elements, bottom first.
    pub closed spec fn spec_open_elements(&self) -> Seq<ExpandedName> {
        self.open_elements_stack@
    }

    /// The context element of a fragment parse, if any.
    pub closed spec fn spec_context(&self) -> Option<ExpandedName> {
        self.context_elem
    }

    /// Whether a head element has been seen.
    pub closed spec fn spec_has_head(&self) -> bool {
        self.head_elem
    }

    /// The stack of template insertion modes.
    pub closed spec fn spec_template_modes(&self) -> Seq<InsertionMode> {
        self.template_insertion_modes@
    }

    /// The current insertion mode.
    pub closed spec fn spec_insertion_mode(&self) -> InsertionMode {
        self.insertion_mode
    }

    /// The insertion mode saved while text is collected, if any.
    pub closed spec fn spec_orig_insertion_mode(&self) -> Option<InsertionMode> {
        self.orig_insertion_mode
    }

    /// The names of the active formatting elements.
    pub closed spec fn spec_active_formatting(&self) -> Seq<ExpandedName> {
        self.active_formatting_elements@
    }

    /// Whether a form element has been seen.
    pub closed spec fn spec_has_form(&self) -> bool {
        self.form_elem
    }

    /// Whether scripting is enabled.
    pub closed spec fn spec_scripting(&self) -> bool {
        self.scripting
    }

    /// Whether a frameset may still replace the body.
    pub closed spec fn spec_frameset_ok(&self) -> bool {
        self.frameset_ok
    }

    /// Whether foster parenting is in force.
    pub closed spec fn spec_foster_parenting(&self) -> bool {
        self.foster_parenting
    }

    /// How deeply script execution is nested.
    pub closed spec fn spec_script_nesting_level(&self) -> u32 {
        self.script_nesting_level
    }

    /// Whether the parser is paused.
    pub closed spec fn spec_parser_paused(&self) -> bool {
        self.parser_pause_flag
    }

    /// Whether a character encoding has been decided.
    pub closed spec fn spec_has_encoding(&self) -> bool {
        self.character_encoding is Some
    }

    pub fn new() -> (r: HtmlParser)
        ensures
            r.spec_open_elements() == Seq::<ExpandedName>::empty(),
            r.spec_context() is None,
            !r.spec_has_head(),
            r.spec_template_modes() == Seq::<InsertionMode>::empty(),
            r.spec_insertion_mode() == InsertionMode::Initial,
            r.spec_orig_insertion_mode() is None,
            r.spec_active_formatting() == Seq::<ExpandedName>::empty(),
            !r.spec_has_form(),
            r.spec_scripting(),
            r.spec_frameset_ok(),
            !r.spec_foster_parenting(),
            r.spec_script_nesting_level() == 0,
            !r.spec_parser_paused(),
            !r.spec_has_encoding(),
    {
        HtmlParser {
            character_encoding: None,
            insertion_mode: InsertionMode::Initial,
            orig_insertion_mode: None,
            open_elements_stack: Vec::new(),
            active_formatting_elements: Vec::new(),
            head_elem: false,
            form_elem: false,
            scripting: true,
            frameset_ok: true,
            template_insertion_modes: Vec::new(),
            foster_parenting: false,
            script_nesting_level: 0,
            parser_pause_flag: false,
            context_elem: None,
        }
    }

    /// Whether a token is a start tag of the given name.
    pub fn start_tag_with_name(tag: &Tag, tag_name: &str) -> (r: bool)
        ensures
            r == (tag@.name == tag_name@ && !tag@.is_end_tag),
    {
        !tag.is_end_tag && vec_eq_str(&tag.name, tag_name)
    }

    /// Whether a token is a start tag with one of the given names.
    pub fn start_tag_with_names(tag: &Tag, tag_names: &Vec<&str>) -> (r: bool)
        ensures
            r == (!tag@.is_end_tag && (exists|i: int|
                0 <= i < tag_names@.len() && tag@.name == (#[trigger] tag_names@[i])@)),
    {
        if tag.is_end_tag {
            return false;
        }
        let mut i: usize = 0;
        while i < tag_names.len()
            invariant
                !tag@.is_end_tag,
                i <= tag_names@.len(),
                forall|j: int| 0 <= j < i ==> tag@.name != (#[trigger] tag_names@[j])@,
            decreases tag_names@.len() - i,
        {
            if vec_eq_str(&tag.name, tag_names[i]) {
                proof {
                    assert(tag@.name == (tag_names@[i as int])@);
                    assert(exists|k: int|
                        0 <= k < tag_names@.len() && tag@.name == (#[trigger] tag_names@[k])@);
                }
                return true;
            }
            i = i + 1;
        }
        false
    }

    /// Whether a token is an end tag of the given name.
    pub fn end_tag_with_name(tag: &Tag, tag_name: &str) -> (r: bool)
        ensures
            r == (tag@.name == tag_name@ && tag@.is_end_tag),
    {
        tag.is_end_tag && vec_eq_str(&tag.name, tag_name)
    }

    /// Whether a token is an end tag with one of the given names.
    pub fn end_tag_with_names(tag: &Tag, tag_names: &Vec<&str>) -> (r: bool)
        ensures
            r == (tag@.is_end_tag && (exists|i: int|
                0 <= i < tag_names@.len() && tag@.name == (#[trigger] tag_names@[i])@)),
    {
        if !tag.is_end_tag {
            return false;
        }
        let mut i: usize = 0;
        while i < tag_names.len()
            invariant
                tag@.is_end_tag,
                i <= tag_names@.len(),
                forall|j: int| 0 <= j < i ==> tag@.name != (#[trigger] tag_names@[j])@,
            decreases tag_names@.len() - i,
        {
            if vec_eq_str(&tag.name, tag_names[i]) {
                proof {
                    assert(tag@.name == (tag_names@[i as int])@);
                    assert(exists|k: int|
                        0 <= k < tag_names@.len() && tag@.name == (#[trigger] tag_names@[k])@);
                }
                return true;
            }
            i = i + 1;
        }
        false
    }

    /// The expanded name of an element, copied.
    pub fn elem_name(&self, target: &ExpandedName) -> (r: ExpandedName)
        ensures
            crate::namespace::spec_eq_namespace(r.ns, target.ns),
            r.local@ == target.local@,
    {
        ExpandedName { ns: target.ns.clone(), local: target.local.clone() }
    }

    /// Whether an element is in the HTML namespace and has the given name.
    pub fn html_elem_named(&self, elem: &ExpandedName, name: &str) -> (r: bool)
        ensures
            r == (elem.ns is Html && elem.local@ == name@),
    {
        match elem.ns {
            Namespace::Html => str_eq(elem.local.as_str(), name),
            _ => false,
        }
    }

    /// Resets the insertion mode appropriately: scans the open elements
    /// from the top, the bottom entry standing in for the context element,
    /// and answers with the mode of the first recognized element name.
    pub fn reset_insertion_mode(&self) -> (r: InsertionMode)
        requires
            spec_sees_template(self.spec_open_elements(), self.spec_context())
                ==> self.spec_template_modes().len() >= 1,
        ensures
            r == spec_reset_mode(
                self.spec_open_elements(),
                self.spec_context(),
                self.spec_has_head(),
                self.spec_template_modes(),
            ),
    {
        let ghost stack = self.open_elements_stack@;
        let ghost ctx = self.context_elem;
        let ghost head = self.head_elem;
        let ghost tmpl = self.template_insertion_modes@;
        let stack_len = self.open_elements_stack.len();
        let mut idx: usize = stack_len;
        proof {
            assert(stack.take(stack_len as int) =~= stack);
        }
        while idx > 0
            invariant
                idx <= stack_len,
                stack_len == stack.len(),
                stack == self.open_elements_stack@,
                ctx == self.context_elem,
                head == self.head_elem,
                tmpl == self.template_insertion_modes@,
                spec_sees_template(stack, ctx) ==> tmpl.len() >= 1,
                spec_reset_mode(stack.take(idx as int), ctx, head, tmpl) == spec_reset_mode(
                    stack,
                    ctx,
                    head,
                    tmpl,
                ),
            decreases idx,
        {
            let i = idx - 1;
            let last = i == 0;
            let node: &ExpandedName = if last && self.context_elem.is_some() {
                match self.context_elem.as_ref() {
                    Some(cx) => cx,
                    None => {
                        proof {
                            assert(false);
                        }
                        &self.open_elements_stack[i]
                    },
                }
            } else {
                &self.open_elements_stack[i]
            };
            proof {
                assert(*node == node_at(stack, ctx, i as int));
                assert(stack.take(idx as int).len() == idx);
                assert(stack.take(idx as int)[i as int] == stack[i as int]);
                assert(stack.take(idx as int).take(i as int) =~= stack.take(i as int));
            }
            let is_html = match node.ns {
                Namespace::Html => true,
                _ => false,
            };
            if is_html {
                let nm = node.local.as_str();
                if str_eq(nm, "select") {
                    let mut j: usize = i;
                    proof {
                        lemma_select_mode_take(stack, idx as int, i as int);
                        assert(spec_reset_mode(stack.take(idx as int), ctx, head, tmpl)
                            == spec_select_mode(stack.take(idx as int), i as int));
                        assert(spec_reset_mode(stack, ctx, head, tmpl) == spec_select_mode(
                            stack,
                            i as int,
                        ));
                    }
                    while j > 0
                        invariant
                            j <= i < stack.len(),
                            stack == self.open_elements_stack@,
                            ctx == self.context_elem,
                            head == self.head_elem,
                            tmpl == self.template_insertion_modes@,
                            spec_reset_mode(stack, ctx, head, tmpl) == spec_select_mode(
                                stack,
                                j as int,
                            ),
                        decreases j,
                    {
                        let anc = &self.open_elements_stack[j - 1];
                        if self.html_elem_named(anc, "template") {
                            return InsertionMode::InSelect;
                        }
                        if self.html_elem_named(anc, "table") {
                            return InsertionMode::InSelectInTable;
                        }
                        j = j - 1;
                    }
                    return InsertionMode::InSelect;
                }
                if (str_eq(nm, "td") || str_eq(nm, "th")) && !last {
                    return InsertionMode::InCell;
                }
                if str_eq(nm, "tr") {
                    return InsertionMode::InRow;
                }
                if str_eq(nm, "tbody") || str_eq(nm, "thead") || str_eq(nm, "tfoot") {
                    return InsertionMode::InTableBody;
                }
                if str_eq(nm, "caption") {
                    return InsertionMode::InCaption;
                }
                if str_eq(nm, "colgroup") {
                    return InsertionMode::InColumnGroup;
                }
                if str_eq(nm, "table") {
                    return InsertionMode::InTable;
                }
                if str_eq(nm, "template") {
                    proof {
                        assert(spec_sees_template(stack, ctx));
                    }
                    return self.template_insertion_modes[self.template_insertion_modes.len() - 1];
                }
                if str_eq(nm, "head") && !last {
                    return InsertionMode::InHead;
                }
                if str_eq(nm, "body") {
                    return InsertionMode::InBody;
                }
                if str_eq(nm, "frameset") {
                    return InsertionMode::InFrameset;
                }
                if str_eq(nm, "html") {
                    if self.head_elem {
                        return InsertionMode::AfterHead;
                    }
                    return InsertionMode::BeforeHead;
                }
            }
            idx = idx - 1;
        }
        proof {
            assert(stack.take(0) =~= Seq::<ExpandedName>::empty());
        }
        InsertionMode::InBody
    }

    /// Hands one token to the dispatcher. The construction rules proper are
    /// the caller's; this stage only notes whether any element is open.
    pub fn tree_construction_dispatcher(&mut self, _tok: Token) -> (r: bool)
        ensures
            final(self).spec_open_elements() == old(self).spec_open_elements(),
            final(self).spec_insertion_mode() == old(self).spec_insertion_mode(),
            r == (old(self).spec_open_elements().len() == 0),
    {
        self.open_elements_stack.len() == 0
    }
}

/// Scanning for the nearest `select` ancestor looks only below the
/// position, so a longer stack prefix gives the same answer.
pub proof fn lemma_select_mode_take(stack: Seq<ExpandedName>, n: int, i: int)
    requires
        0 <= i < n <= stack.len(),
    ensures
        spec_select_mode(stack.take(n), i) == spec_select_mode(stack, i),
    decreases i,
{
    if i > 0 {
        assert(stack.take(n)[i - 1] == stack[i - 1]);
        lemma_select_mode_take(stack, n, i - 1);
    }
}

} // verus!
