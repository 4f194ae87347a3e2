//! A plain model of a parsed XML document.
//!
//! A server's multistatus response is turned into this tree once, at the
//! trusted parsing boundary; every rule about its meaning is then proved
//! over the tree.
use vstd::prelude::*;
use vstd::string::StringExecFns;

verus! {

/// One node of a parsed XML document.
///
/// `Element` keeps the resolved namespace URI, the local name and all child
/// nodes in document order. `Text` carries character data (CDATA included).
/// `Other` stands for comments and processing instructions, which the
/// protocol logic ignores.
pub enum XmlNode {
    Element { ns: String, name: String, children: Vec<XmlNode> },
    Text { content: String },
    Other,
}

impl XmlNode {
    /// The child nodes of an element; other nodes have none.
    pub open spec fn spec_kids(self) -> Seq<XmlNode> {
        match self {
            XmlNode::Element { children, .. } => children@,
            _ => Seq::empty(),
        }
    }

    /// Whether this node is an element with the given expanded name.
    pub open spec fn is_named(self, ns: Seq<char>, name: Seq<char>) -> bool {
        match self {
            XmlNode::Element { ns: n, name: l, .. } => n@ == ns && l@ == name,
            _ => false,
        }
    }
}

/// The first element among `self` and its descendants, in document order,
/// whose expanded name is (`ns`, `name`).
pub open spec fn find_named(n: XmlNode, ns: Seq<char>, name: Seq<char>) -> Option<XmlNode>
    decreases n,
{
    match n {
        XmlNode::Element { ns: ens, name: ename, children } => if ens@ == ns && ename@ == name {
            Some(n)
        } else {
            find_named_in(children@, ns, name)
        },
        _ => None,
    }
}

/// The first match of `find_named` over a list of subtrees.
pub open spec fn find_named_in(l: Seq<XmlNode>, ns: Seq<char>, name: Seq<char>) -> Option<XmlNode>
    decreases l,
{
    if l.len() == 0 {
        None
    } else {
        match find_named(l[0], ns, name) {
            Some(m) => Some(m),
            None => find_named_in(l.drop_first(), ns, name),
        }
    }
}

impl XmlNode {
    /// Finds the first descendant element (or this node itself) with the
    /// given expanded name, in document order.
    pub fn find(&self, ns: &String, name: &String) -> (r: Option<&XmlNode>)
        ensures
            match r {
                Some(m) => find_named(*self, ns@, name@) == Some(*m),
                None => find_named(*self, ns@, name@) is None,
            },
        decreases *self,
    {
        match self {
            XmlNode::Element { ns: n, name: l, children } => {
                if *n == *ns && *l == *name {
                    Some(self)
                } else {
                    find_in_nodes(children, ns, name)
                }
            },
            _ => None,
        }
    }
}

/// Finds the first match of `find_named` over a slice of subtrees.
pub fn find_in_nodes<'a>(l: &'a Vec<XmlNode>, ns: &String, name: &String) -> (r: Option<
    &'a XmlNode,
>)
    ensures
        match r {
            Some(m) => find_named_in(l@, ns@, name@) == Some(*m),
            None => find_named_in(l@, ns@, name@) is None,
        },
    decreases l@,
{
    proof {
        assert(l@.skip(0) =~= l@);
    }
    let mut i: usize = 0;
    while i < l.len()
        invariant
            i <= l.len(),
            find_named_in(l@, ns@, name@) == find_named_in(l@.skip(i as int), ns@, name@),
        decreases l.len() - i,
    {
        proof {
            assert(l@.skip(i as int)[0] == l@[i as int]);
        }
        match l[i].find(ns, name) {
            Some(m) => {
                return Some(m);
            },
            None => {
                proof {
                    assert(l@.skip(i as int).drop_first() =~= l@.skip(i + 1));
                }
                i = i + 1;
            },
        }
    }
    proof {
        assert(l@.skip(l@.len() as int).len() == 0);
    }
    None
}

/// All elements among `n` and its descendants, in document order, whose
/// expanded name is (`ns`, `name`).
pub open spec fn all_named(n: XmlNode, ns: Seq<char>, name: Seq<char>) -> Seq<XmlNode>
    decreases n,
{
    match n {
        XmlNode::Element { ns: ens, name: ename, children } => (if ens@ == ns && ename@ == name {
            seq![n]
        } else {
            Seq::empty()
        }) + all_named_in(children@, ns, name),
        _ => Seq::empty(),
    }
}

/// All matches of `all_named` over a list of subtrees, concatenated.
pub open spec fn all_named_in(l: Seq<XmlNode>, ns: Seq<char>, name: Seq<char>) -> Seq<XmlNode>
    decreases l,
{
    if l.len() == 0 {
        Seq::empty()
    } else {
        all_named(l[0], ns, name) + all_named_in(l.drop_first(), ns, name)
    }
}

/// The dereferenced values of a sequence of borrowed nodes.
pub open spec fn deref_nodes(l: Seq<&XmlNode>) -> Seq<XmlNode> {
    l.map_values(|x: &XmlNode| *x)
}

impl XmlNode {
    /// Collects every descendant element (this node included) with the
    /// given expanded name, in document order.
    pub fn collect(&self, ns: &String, name: &String) -> (r: Vec<&XmlNode>)
        ensures
            deref_nodes(r@) == all_named(*self, ns@, name@),
    {
        let mut out: Vec<&XmlNode> = Vec::new();
        proof {
            assert(deref_nodes(out@) =~= Seq::<XmlNode>::empty());
        }
        self.collect_into(ns, name, &mut out);
        proof {
            assert(Seq::<XmlNode>::empty() + all_named(*self, ns@, name@) =~= all_named(
                *self,
                ns@,
                name@,
            ));
        }
        out
    }

    /// Appends every matching descendant element to `out`.
    pub fn collect_into<'a>(&'a self, ns: &String, name: &String, out: &mut Vec<&'a XmlNode>)
        ensures
            deref_nodes(final (out)@) == deref_nodes(old(out)@) + all_named(*self, ns@, name@),
        decreases *self,
    {
        match self {
            XmlNode::Element { ns: ens, name: ename, children } => {
                if *ens == *ns && *ename == *name {
                    out.push(self);
                    proof {
                        assert(deref_nodes(out@) =~= deref_nodes(old(out)@) + seq![*self]);
                    }
                }
                collect_in_nodes(children, ns, name, out);
                proof {
                    assert(deref_nodes(out@) =~= deref_nodes(old(out)@) + all_named(
                        *self,
                        ns@,
                        name@,
                    ));
                }
            },
            _ => {
                proof {
                    assert(deref_nodes(out@) =~= deref_nodes(old(out)@) + all_named(
                        *self,
                        ns@,
                        name@,
                    ));
                }
            },
        }
    }
}

/// Appends every match of `all_named` over a slice of subtrees to `out`.
pub fn collect_in_nodes<'a>(
    l: &'a Vec<XmlNode>,
    ns: &String,
    name: &String,
    out: &mut Vec<&'a XmlNode>,
)
    ensures
        deref_nodes(final (out)@) == deref_nodes(old(out)@) + all_named_in(l@, ns@, name@),
    decreases l@,
{
    proof {
        assert(l@.skip(0) =~= l@);
    }
    let mut i: usize = 0;
    while i < l.len()
        invariant
            i <= l.len(),
            deref_nodes(old(out)@) + all_named_in(l@, ns@, name@) == deref_nodes(out@)
                + all_named_in(l@.skip(i as int), ns@, name@),
        decreases l.len() - i,
    {
        proof {
            assert(l@.skip(i as int)[0] == l@[i as int]);
            assert(l@.skip(i as int).drop_first() =~= l@.skip(i + 1));
        }
        l[i].collect_into(ns, name, out);
        i = i + 1;
    }
    proof {
        assert(l@.skip(l@.len() as int).len() == 0);
        assert(deref_nodes(final (out)@) =~= deref_nodes(old(out)@) + all_named_in(
            l@,
            ns@,
            name@,
        ));
    }
}

/// The first element among `self` and its descendants, in document order,
/// whose local name is `name`, regardless of its namespace.
pub open spec fn find_local(n: XmlNode, name: Seq<char>) -> Option<XmlNode>
    decreases n,
{
    match n {
        XmlNode::Element { name: ename, children, .. } => if ename@ == name {
            Some(n)
        } else {
            find_local_in(children@, name)
        },
        _ => None,
    }
}

/// The first match of `find_local` over a list of subtrees.
pub open spec fn find_local_in(l: Seq<XmlNode>, name: Seq<char>) -> Option<XmlNode>
    decreases l,
{
    if l.len() == 0 {
        None
    } else {
        match find_local(l[0], name) {
            Some(m) => Some(m),
            None => find_local_in(l.drop_first(), name),
        }
    }
}

impl XmlNode {
    /// Finds the first descendant element (or this node itself) with the
    /// given local name, whatever namespace it was answered in.
    ///
    /// This is the documented fallback for servers that answer a property
    /// in the wrong namespace; it is used only after an exact lookup found
    /// nothing.
    pub fn find_by_local_name(&self, name: &String) -> (r: Option<&XmlNode>)
        ensures
            match r {
                Some(m) => find_local(*self, name@) == Some(*m),
                None => find_local(*self, name@) is None,
            },
        decreases *self,
    {
        match self {
            XmlNode::Element { name: ename, children, .. } => {
                if *ename == *name {
                    Some(self)
                } else {
                    find_local_in_nodes(children, name)
                }
            },
            _ => None,
        }
    }
}

/// Finds the first match of `find_local` over a slice of subtrees.
pub fn find_local_in_nodes<'a>(l: &'a Vec<XmlNode>, name: &String) -> (r: Option<&'a XmlNode>)
    ensures
        match r {
            Some(m) => find_local_in(l@, name@) == Some(*m),
            None => find_local_in(l@, name@) is None,
        },
    decreases l@,
{
    proof {
        assert(l@.skip(0) =~= l@);
    }
    let mut i: usize = 0;
    while i < l.len()
        invariant
            i <= l.len(),
            find_local_in(l@, name@) == find_local_in(l@.skip(i as int), name@),
        decreases l.len() - i,
    {
        proof {
            assert(l@.skip(i as int)[0] == l@[i as int]);
        }
        match l[i].find_by_local_name(name) {
            Some(m) => {
                return Some(m);
            },
            None => {
                proof {
                    assert(l@.skip(i as int).drop_first() =~= l@.skip(i + 1));
                }
                i = i + 1;
            },
        }
    }
    proof {
        assert(l@.skip(l@.len() as int).len() == 0);
    }
    None
}

/// The text carried by a node: the content of a text node, or the content
/// of an element's first child when that child is a text node.
pub open spec fn spec_text(n: XmlNode) -> Option<Seq<char>> {
    match n {
        XmlNode::Text { content } => Some(content@),
        XmlNode::Element { children, .. } => if children@.len() > 0 {
            match children@[0] {
                XmlNode::Text { content } => Some(content@),
                _ => None,
            }
        } else {
            None
        },
        XmlNode::Other => None,
    }
}

impl XmlNode {
    /// The node's text: its own content for a text node, the content of
    /// the first child for an element whose first child is character data.
    pub fn text(&self) -> (r: Option<&String>)
        ensures
            match r {
                Some(t) => spec_text(*self) == Some(t@),
                None => spec_text(*self) is None,
            },
    {
        match self {
            XmlNode::Text { content } => Some(content),
            XmlNode::Element { children, .. } => {
                if children.len() > 0 {
                    match &children[0] {
                        XmlNode::Text { content } => Some(content),
                        _ => None,
                    }
                } else {
                    None
                }
            },
            XmlNode::Other => None,
        }
    }
}

/// The direct element children of a list of nodes with the given expanded
/// name, in order.
pub open spec fn direct_named(l: Seq<XmlNode>, ns: Seq<char>, name: Seq<char>) -> Seq<XmlNode>
    decreases l,
{
    if l.len() == 0 {
        Seq::empty()
    } else {
        (if l[0].is_named(ns, name) {
            seq![l[0]]
        } else {
            Seq::empty()
        }) + direct_named(l.drop_first(), ns, name)
    }
}

impl XmlNode {
    /// The direct children of this element with the given expanded name,
    /// in document order.
    pub fn children_named(&self, ns: &String, name: &String) -> (r: Vec<&XmlNode>)
        ensures
            deref_nodes(r@) == direct_named(self.spec_kids(), ns@, name@),
    {
        let mut out: Vec<&XmlNode> = Vec::new();
        proof {
            assert(deref_nodes(out@) =~= Seq::<XmlNode>::empty());
        }
        match self {
            XmlNode::Element { children, .. } => {
                proof {
                    assert(children@.skip(0) =~= children@);
                }
                let mut i: usize = 0;
                while i < children.len()
                    invariant
                        i <= children.len(),
                        direct_named(children@, ns@, name@) == deref_nodes(out@) + direct_named(
                            children@.skip(i as int),
                            ns@,
                            name@,
                        ),
                    decreases children.len() - i,
                {
                    proof {
                        assert(children@.skip(i as int)[0] == children@[i as int]);
                        assert(children@.skip(i as int).drop_first() =~= children@.skip(i + 1));
                    }
                    let matched = match &children[i] {
                        XmlNode::Element { ns: ens, name: ename, .. } => *ens == *ns && *ename
                            == *name,
                        _ => false,
                    };
                    let ghost prev = out@;
                    if matched {
                        out.push(&children[i]);
                        proof {
                            assert(deref_nodes(out@) =~= deref_nodes(prev).push(
                                children@[i as int],
                            ));
                        }
                    }
                    proof {
                        assert(direct_named(children@, ns@, name@) =~= deref_nodes(out@)
                            + direct_named(children@.skip(i + 1), ns@, name@));
                    }
                    i = i + 1;
                }
                proof {
                    assert(children@.skip(children@.len() as int).len() == 0);
                    assert(deref_nodes(out@) =~= direct_named(children@, ns@, name@));
                }
            },
            _ => {},
        }
        out
    }
}

/// The position of the first space at or after `from`, or the length of
/// `s` when there is none.
pub open spec fn space_after(s: Seq<char>, from: int) -> int
    decreases s.len() - from,
{
    if from < 0 || from >= s.len() {
        s.len() as int
    } else if s[from] == ' ' {
        from
    } else {
        space_after(s, from + 1)
    }
}

/// The numeric value of a three-digit status code field, or nothing when
/// the field is not a code the HTTP grammar allows (three digits, at
/// least 100).
pub open spec fn parse_code(t: Seq<char>) -> Option<u16> {
    if t.len() == 3 && ('0' <= t[0] && t[0] <= '9') && ('0' <= t[1] && t[1] <= '9') && ('0' <= t[2]
        && t[2] <= '9') && t[0] != '0' {
        Some((100 * (t[0] as u16 - '0' as u16) + 10 * (t[1] as u16 - '0' as u16) + (t[2] as u16
            - '0' as u16)) as u16)
    } else {
        None
    }
}

/// The status code of an HTTP status line `"HTTP/<ver> <code> <reason>"`:
/// the second space-separated field, read as a three-digit code.
pub open spec fn statusline_code(s: Seq<char>) -> Option<u16> {
    if space_after(s, 0) == s.len() {
        None
    } else {
        parse_code(s.subrange(space_after(s, 0) + 1, space_after(s, space_after(s, 0) + 1)))
    }
}

/// Reads the status code out of an HTTP status line such as
/// `"HTTP/1.1 200 OK"`. Only the code is extracted.
pub fn parse_statusline(status_line: &str) -> (r: Option<u16>)
    ensures
        r == statusline_code(status_line@),
{
    let s = crate::text::chars_of(status_line);
    let mut i: usize = 0;
    while i < s.len() && s[i] != ' '
        invariant
            s@ == status_line@,
            0 <= i <= s.len(),
            space_after(s@, 0) == space_after(s@, i as int),
        decreases s.len() - i,
    {
        i = i + 1;
    }
    if i == s.len() {
        return None;
    }
    let start = i + 1;
    let mut j: usize = start;
    while j < s.len() && s[j] != ' '
        invariant
            s@ == status_line@,
            start <= j <= s.len(),
            space_after(s@, start as int) == space_after(s@, j as int),
        decreases s.len() - j,
    {
        j = j + 1;
    }
    let ghost tok = s@.subrange(start as int, j as int);
    if j - start != 3 {
        proof {
            assert(tok.len() != 3);
        }
        return None;
    }
    let d0 = s[start];
    let d1 = s[start + 1];
    let d2 = s[start + 2];
    proof {
        assert(tok[0] == d0 && tok[1] == d1 && tok[2] == d2);
    }
    if '0' <= d0 && d0 <= '9' && '0' <= d1 && d1 <= '9' && '0' <= d2 && d2 <= '9' && d0 != '0' {
        let code: u16 = 100 * (d0 as u16 - 48) + 10 * (d1 as u16 - 48) + (d2 as u16 - 48);
        Some(code)
    } else {
        None
    }
}

/// What a scan of every status element in a subtree found: all of them
/// successful, one without text, one that does not parse, or the first
/// non-success code.
#[derive(Debug)]
pub enum StatusScan {
    AllSuccess,
    MissingText,
    Unparsable,
    Fail(u16),
}

/// Scans a list of status elements from the left and reports the first
/// problem, if any.
pub open spec fn scan_statuses(l: Seq<XmlNode>) -> StatusScan
    decreases l,
{
    if l.len() == 0 {
        StatusScan::AllSuccess
    } else {
        match spec_text(l[0]) {
            None => StatusScan::MissingText,
            Some(t) => match statusline_code(t) {
                None => StatusScan::Unparsable,
                Some(c) => if !crate::dav::spec_is_success(c) {
                    StatusScan::Fail(c)
                } else {
                    scan_statuses(l.drop_first())
                },
            },
        }
    }
}

/// Checks every status element in the subtree under `root`.
///
/// Fails with the first status that is missing its text, cannot be parsed
/// as an HTTP status line, or carries a non-success code.
pub fn check_multistatus(root: &XmlNode) -> (r: Result<(), crate::dav::WebDavError>)
    ensures
        r is Ok <==> scan_statuses(status_nodes(*root)) is AllSuccess,
        r is Err ==> match r->Err_0 {
            crate::dav::WebDavError::InvalidResponse(m) => scan_statuses(status_nodes(*root))
                is MissingText && m@ == "missing text inside status element"@,
            crate::dav::WebDavError::InvalidStatusCode => scan_statuses(status_nodes(*root))
                is Unparsable,
            crate::dav::WebDavError::BadStatusCode(c) => scan_statuses(status_nodes(*root))
                == StatusScan::Fail(c),
            _ => false,
        },
{
    let ns = crate::names::ns_dav();
    let name = crate::names::word_status();
    let statuses = root.collect(&ns, &name);
    let ghost all = status_nodes(*root);
    proof {
        assert(all.skip(0) =~= all);
    }
    let mut i: usize = 0;
    while i < statuses.len()
        invariant
            all == status_nodes(*root),
            deref_nodes(statuses@) == all,
            i <= statuses.len(),
            scan_statuses(all) == scan_statuses(all.skip(i as int)),
        decreases statuses.len() - i,
    {
        proof {
            assert(all[i as int] == *statuses@[i as int]);
            assert(all.skip(i as int)[0] == all[i as int]);
            assert(all.skip(i as int).drop_first() =~= all.skip(i + 1));
        }
        match statuses[i].text() {
            None => {
                return Err(
                    crate::dav::WebDavError::InvalidResponse(
                        String::from_str("missing text inside status element"),
                    ),
                );
            },
            Some(t) => {
                match parse_statusline(t.as_str()) {
                    None => {
                        return Err(crate::dav::WebDavError::InvalidStatusCode);
                    },
                    Some(code) => {
                        if !(200 <= code && code < 300) {
                            return Err(crate::dav::WebDavError::BadStatusCode(code));
                        }
                    },
                }
            },
        }
        i = i + 1;
    }
    proof {
        assert(all.skip(all.len() as int).len() == 0);
    }
    Ok(())
}

/// A named element is found exactly when the list of all matches is not
/// empty, and what is found is the first match.
pub proof fn lemma_find_all_named(n: XmlNode, ns: Seq<char>, name: Seq<char>)
    ensures
        find_named(n, ns, name) is Some <==> all_named(n, ns, name).len() > 0,
        find_named(n, ns, name) matches Some(m) ==> all_named(n, ns, name)[0] == m,
    decreases n,
{
    match n {
        XmlNode::Element { ns: ens, name: ename, children } => {
            if !(ens@ == ns && ename@ == name) {
                lemma_find_all_named_in(children@, ns, name);
            }
        },
        _ => {},
    }
}

/// The list form of `lemma_find_all_named`.
pub proof fn lemma_find_all_named_in(l: Seq<XmlNode>, ns: Seq<char>, name: Seq<char>)
    ensures
        find_named_in(l, ns, name) is Some <==> all_named_in(l, ns, name).len() > 0,
        find_named_in(l, ns, name) matches Some(m) ==> all_named_in(l, ns, name)[0] == m,
    decreases l,
{
    if l.len() > 0 {
        lemma_find_all_named(l[0], ns, name);
        lemma_find_all_named_in(l.drop_first(), ns, name);
    }
}

/// Every status element under `n`, in document order.
pub open spec fn status_nodes(n: XmlNode) -> Seq<XmlNode> {
    all_named(n, "DAV:"@, "status"@)
}

/// The rendered form of an empty XML element: `<name/>`, with an `xmlns`
/// attribute when the namespace is not empty.
pub open spec fn spec_render_xml(ns: Seq<char>, name: Seq<char>) -> Seq<char> {
    if ns.len() == 0 {
        "<"@ + name + "/>"@
    } else {
        "<"@ + name + " xmlns=\""@ + ns + "\"/>"@
    }
}

/// Renders an empty XML element for a property name.
pub fn render_xml(name: &crate::PropertyName) -> (r: String)
    ensures
        r@ == spec_render_xml(name.ns@, name.name@),
{
    let mut s = String::from_str("<");
    s.append(name.name.as_str());
    if name.ns.as_str().is_empty() {
        s.append("/>");
        proof {
            assert(s@ =~= spec_render_xml(name.ns@, name.name@));
        }
    } else {
        s.append(" xmlns=\"");
        s.append(name.ns.as_str());
        s.append("\"/>");
        proof {
            assert(s@ =~= spec_render_xml(name.ns@, name.name@));
        }
    }
    s
}

/// The rendered form of an XML element with optional text content:
/// `<name>text</name>`, the text escaped, or the empty element when
/// there is no text.
pub open spec fn spec_render_xml_with_text(
    ns: Seq<char>,
    name: Seq<char>,
    text: Option<Seq<char>>,
) -> Seq<char> {
    match text {
        None => spec_render_xml(ns, name),
        Some(t) => if ns.len() == 0 {
            "<"@ + name + ">"@ + crate::text::escape_seq(t) + "</"@ + name + ">"@
        } else {
            "<"@ + name + " xmlns=\""@ + ns + "\">"@ + crate::text::escape_seq(t) + "</"@ + name
                + ">"@
        },
    }
}

/// Renders an XML element with optional, escaped text content.
pub fn render_xml_with_text(name: &crate::PropertyName, text: Option<&str>) -> (r: String)
    ensures
        match text {
            None => r@ == spec_render_xml_with_text(name.ns@, name.name@, None),
            Some(t) => r@ == spec_render_xml_with_text(name.ns@, name.name@, Some(t@)),
        },
{
    match text {
        None => render_xml(name),
        Some(t) => {
            let escaped = crate::text::escape_text(t);
            let mut s = String::from_str("<");
            s.append(name.name.as_str());
            if name.ns.as_str().is_empty() {
                s.append(">");
            } else {
                s.append(" xmlns=\"");
                s.append(name.ns.as_str());
                s.append("\">");
            }
            s.append(escaped.as_str());
            s.append("</");
            s.append(name.name.as_str());
            s.append(">");
            proof {
                assert(s@ =~= spec_render_xml_with_text(name.ns@, name.name@, Some(t@)));
            }
            s
        },
    }
}

/// Finds the property element under `node` and returns its text with
/// CR-LF line endings restored.
///
/// XML parsing normalizes `"\r\n"` to `"\n"`; calendar and contact
/// payloads are CR-LF-terminated line-oriented text, so every bare line
/// feed is rewritten back to `"\r\n"` before the data is returned.
pub fn get_newline_corrected_text(node: &XmlNode, property: &crate::PropertyName) -> (r: Result<
    String,
    crate::dav::WebDavError,
>)
    ensures
        match find_named(*node, property.ns@, property.name@) {
            None => r matches Err(e) && e is InvalidResponse,
            Some(p) => match spec_text(p) {
                None => r matches Err(e) && (e matches crate::dav::WebDavError::InvalidResponse(
                    m,
                ) && m@ == "missing text in property"@),
                Some(d) => r matches Ok(s) && s@ == crate::text::crlf_restore(d),
            },
        },
{
    match node.find(&property.ns, &property.name) {
        None => {
            let mut msg = String::from_str("missing ");
            msg.append(property.name.as_str());
            msg.append(" in response");
            Err(crate::dav::WebDavError::InvalidResponse(msg))
        },
        Some(p) => match p.text() {
            None => Err(
                crate::dav::WebDavError::InvalidResponse(
                    String::from_str("missing text in property"),
                ),
            ),
            Some(raw) => {
                let chars = crate::text::chars_of(raw.as_str());
                let corrected = crate::text::crlf_restore_chars(&chars);
                Ok(crate::text::string_from_chars(&corrected))
            },
        },
    }
}

/// Why a response body could not be turned into a tree.
#[derive(Debug)]
pub enum XmlFault {
    /// The bytes are not UTF-8.
    NotUtf8,
    /// The bytes are not a well-formed XML document.
    Malformed,
}

#[verifier::external_type_specification]
#[verifier::external_body]
pub struct ExXmlTreeNode<'a, 'input: 'a>(roxmltree::Node<'a, 'input>);

/// The tree carried by a well-formed XML document, rooted at its document
/// element, or nothing when the bytes are not one. A function of the bytes
/// alone.
pub uninterp spec fn xml_tree_of(bytes: Seq<u8>) -> Option<XmlNode>;

/// Relies on roxmltree::Node's accessors: the node's type, its resolved
/// tag name, its text and its children, copied one for one.
#[verifier::external_body]
fn convert_node(node: roxmltree::Node) -> XmlNode {
    match node.node_type() {
        roxmltree::NodeType::Element => XmlNode::Element {
            ns: node.tag_name().namespace().unwrap_or("").to_string(),
            name: node.tag_name().name().to_string(),
            children: node.children().map(convert_node).collect(),
        },
        roxmltree::NodeType::Text => XmlNode::Text {
            content: node.text().unwrap_or("").to_string(),
        },
        _ => XmlNode::Other,
    }
}

/// Relies on roxmltree::Document::parse: whether the bytes form a
/// well-formed XML document, and the tree they carry, are functions of
/// the bytes alone.
#[verifier::external_body]
pub fn parse_xml(body: &[u8]) -> (r: Result<XmlNode, XmlFault>)
    ensures
        r matches Ok(t) ==> xml_tree_of(body@) == Some(t),
        r is Err ==> xml_tree_of(body@) is None,
        r matches Err(f) ==> (f is NotUtf8 <==> !vstd::utf8::valid_utf8(body@)),
{
    let text = match core::str::from_utf8(body) {
        Ok(t) => t,
        Err(_) => {
            return Err(XmlFault::NotUtf8);
        },
    };
    match roxmltree::Document::parse(text) {
        Ok(doc) => Ok(convert_node(doc.root_element())),
        Err(_) => Err(XmlFault::Malformed),
    }
}

} // verus!
