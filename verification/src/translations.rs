//! Per-language translation trees and the localized-message pipeline: parse
//! the dotted key, pick the language's tree, walk the tree to a leaf
//! template, and fill the template's markers with the arguments.

use vstd::prelude::*;

verus! {

use vstd::string::StringExecFns;

use crate::language::Language;
use crate::template::render_template;
use crate::template::substitute;
use crate::template::unescape_all;
use crate::text::str_eq;
use crate::translation_key::TranslationKey;
use crate::translation_key::TranslationKeyParseError;
use crate::translation_key::components_well_formed;
use crate::translation_key::has_empty_component;
use crate::translation_key::join_dots;

/// One node of a translation tree: either a leaf template or a mapping from
/// path components to child nodes.
#[derive(Debug)]
pub enum TranslationNode {
    Leaf(String),
    Branch(Vec<(String, TranslationNode)>),
}

/// The first child stored under the given component name, if any.
pub open spec fn assoc_get(pairs: Seq<(String, TranslationNode)>, key: Seq<char>) -> Option<
    TranslationNode,
>
    decreases pairs.len(),
{
    if pairs.len() == 0 {
        None
    } else if pairs[0].0@ == key {
        Some(pairs[0].1)
    } else {
        assoc_get(pairs.skip(1), key)
    }
}

/// Walk the tree along the path: each step requires the current node to be a
/// mapping containing the next component.
pub open spec fn node_lookup(node: TranslationNode, path: Seq<Seq<char>>) -> Option<
    TranslationNode,
>
    decreases path.len(),
{
    if path.len() == 0 {
        Some(node)
    } else {
        match node {
            TranslationNode::Leaf(_) => None,
            TranslationNode::Branch(pairs) => match assoc_get(pairs@, path[0]) {
                None => None,
                Some(child) => node_lookup(child, path.skip(1)),
            },
        }
    }
}

/// Walk a tree along the path components from `idx` on.
pub fn lookup_node<'a>(node: &'a TranslationNode, path: &[String], idx: usize) -> (r: Option<
    &'a TranslationNode,
>)
    requires
        idx <= path@.len(),
    ensures
        match r {
            Some(n) => node_lookup(*node, path.deep_view().skip(idx as int)) == Some(*n),
            None => node_lookup(*node, path.deep_view().skip(idx as int)) is None,
        },
    decreases path@.len() - idx,
{
    let ghost rest = path.deep_view().skip(idx as int);
    if idx == path.len() {
        proof {
            assert(rest.len() == 0);
        }
        return Some(node);
    }
    let ghost key = path.deep_view()[idx as int];
    proof {
        assert(rest[0] == key);
    }
    match node {
        TranslationNode::Leaf(_) => None,
        TranslationNode::Branch(pairs) => {
            let n = pairs.len();
            let mut w: usize = 0;
            proof {
                assert(pairs@.skip(0) =~= pairs@);
            }
            while w < n
                invariant
                    w <= n,
                    n == pairs@.len(),
                    idx < path@.len(),
                    key == path.deep_view()[idx as int],
                    *node == TranslationNode::Branch(*pairs),
                    assoc_get(pairs@.skip(w as int), key) == assoc_get(pairs@, key),
                decreases n - w,
            {
                if str_eq(pairs[w].0.as_str(), path[idx].as_str()) {
                    proof {
                        assert(pairs@.skip(w as int)[0] == pairs@[w as int]);
                        assert(assoc_get(pairs@, key) == Some(pairs@[w as int].1));
                        assert(path.deep_view().skip(idx as int).skip(1) =~= path.deep_view().skip(
                            idx + 1,
                        ));
                        assert(path.deep_view().skip(idx as int)[0] == key);
                        assert(path.deep_view().skip(idx as int).len() > 0);
                        assert(assoc_get(pairs@, path.deep_view().skip(idx as int)[0]) == Some(
                            pairs@[w as int].1,
                        ));
                        assert(node_lookup(*node, path.deep_view().skip(idx as int))
                            == node_lookup(pairs@[w as int].1, path.deep_view().skip(idx + 1)));
                    }
                    return lookup_node(&pairs[w].1, path, idx + 1);
                }
                proof {
                    assert(pairs@.skip(w as int)[0] == pairs@[w as int]);
                    assert(pairs@.skip(w as int).skip(1) =~= pairs@.skip(w + 1));
                }
                w = w + 1;
            }
            proof {
                assert(pairs@.skip(n as int) =~= Seq::<(String, TranslationNode)>::empty());
                assert(assoc_get(pairs@, key) is None);
                assert(path.deep_view().skip(idx as int)[0] == key);
            }
            None
        },
    }
}

/// The loaded translation trees, one per language whose file was present and
/// parsed. Built once at startup and read-only afterwards.
pub struct TranslationStore {
    entries: Vec<(Language, TranslationNode)>,
}

/// The first tree stored for the given language, if any.
pub open spec fn lang_assoc(entries: Seq<(Language, TranslationNode)>, lang: Language) -> Option<
    TranslationNode,
>
    decreases entries.len(),
{
    if entries.len() == 0 {
        None
    } else if entries[0].0 == lang {
        Some(entries[0].1)
    } else {
        lang_assoc(entries.skip(1), lang)
    }
}

impl TranslationStore {
    /// The tree loaded for a language, if any.
    pub closed spec fn spec_get(&self, lang: Language) -> Option<TranslationNode> {
        lang_assoc(self.entries@, lang)
    }

    /// A store with no language loaded.
    pub fn new() -> (r: Self)
        ensures
            forall|l: Language| r.spec_get(l) is None,
    {
        let r = TranslationStore { entries: Vec::new() };
        proof {
            assert(forall|l: Language| r.spec_get(l) is None);
        }
        r
    }

    /// Record the tree loaded for one language, shadowing any earlier one.
    pub fn insert(&mut self, lang: Language, tree: TranslationNode)
        ensures
            final(self).spec_get(lang) == Some(tree),
            forall|l: Language| l != lang ==> final(self).spec_get(l) == old(self).spec_get(l),
    {
        let ghost entries0 = self.entries@;
        self.entries.insert(0, (lang, tree));
        proof {
            assert(self.entries@.skip(1) =~= entries0);
        }
    }

    /// The tree loaded for a language, if any.
    pub fn get(&self, lang: Language) -> (r: Option<&TranslationNode>)
        ensures
            match r {
                Some(t) => self.spec_get(lang) == Some(*t),
                None => self.spec_get(lang) is None,
            },
    {
        let n = self.entries.len();
        let mut w: usize = 0;
        proof {
            assert(self.entries@.skip(0) =~= self.entries@);
        }
        while w < n
            invariant
                w <= n,
                n == self.entries@.len(),
                lang_assoc(self.entries@.skip(w as int), lang) == lang_assoc(self.entries@, lang),
            decreases n - w,
        {
            if self.entries[w].0 == lang {
                proof {
                    assert(self.entries@.skip(w as int)[0] == self.entries@[w as int]);
                }
                return Some(&self.entries[w].1);
            }
            proof {
                assert(self.entries@.skip(w as int)[0] == self.entries@[w as int]);
                assert(self.entries@.skip(w as int).skip(1) =~= self.entries@.skip(w + 1));
            }
            w = w + 1;
        }
        proof {
            assert(self.entries@.skip(n as int) =~= Seq::<(Language, TranslationNode)>::empty());
        }
        None
    }
}

/// Why a message could not be localized. All of these are recoverable: the
/// caller decides how to surface them.
#[derive(Debug, Clone)]
pub enum LocalizationError {
    /// The dotted key was malformed.
    BadKey(TranslationKeyParseError),
    /// The key was missing from the language's tree, or named a subtree
    /// rather than a leaf template.
    UnknownKey(TranslationKey),
    /// No tree is loaded for the requested language.
    UnsupportedLanguage(Language),
}

impl From<TranslationKeyParseError> for LocalizationError {
    fn from(err: TranslationKeyParseError) -> (r: Self) {
        LocalizationError::BadKey(err)
    }
}

impl vstd::std_specs::convert::FromSpecImpl<TranslationKeyParseError> for LocalizationError {
    open spec fn obeys_from_spec() -> bool {
        true
    }

    open spec fn from_spec(err: TranslationKeyParseError) -> Self {
        LocalizationError::BadKey(err)
    }
}

impl LocalizationError {
    /// A description of the failure.
    pub fn message(&self) -> (r: String)
        ensures
            match self {
                LocalizationError::BadKey(e) => r@ == "Bad key: "@ + e.spec_input(),
                LocalizationError::UnknownKey(k) => r@ == "Unknown key: "@ + join_dots(k@),
                LocalizationError::UnsupportedLanguage(l) => r@ == "Unsupported language: "@ + (
                if l == Language::English {
                    "en_US"@
                } else {
                    "es_419"@
                }),
            },
    {
        match self {
            LocalizationError::BadKey(e) => {
                let mut out = "Bad key: ".to_owned();
                out.append(e.input());
                out
            },
            LocalizationError::UnknownKey(k) => {
                let mut out = "Unknown key: ".to_owned();
                let written = k.as_string();
                out.append(written.as_str());
                out
            },
            LocalizationError::UnsupportedLanguage(l) => {
                let mut out = "Unsupported language: ".to_owned();
                out.append(l.as_str());
                out
            },
        }
    }
}

/// What localization returns, given the parsed path: the tree for the
/// language must exist and the path must lead to a leaf template, whose
/// markers are then filled with the unescaped arguments.
pub open spec fn localized(
    store: &TranslationStore,
    path: Seq<Seq<char>>,
    language: Language,
    uargs: Seq<Seq<char>>,
    r: Result<String, LocalizationError>,
) -> bool {
    match store.spec_get(language) {
        None => r matches Err(e) && e matches LocalizationError::UnsupportedLanguage(l) && l
            == language,
        Some(tree) => match node_lookup(tree, path) {
            Some(TranslationNode::Leaf(template)) => r matches Ok(out) && out@ == substitute(
                template@,
                uargs,
            ),
            _ => r matches Err(e) && e matches LocalizationError::UnknownKey(k) && k@ == path,
        },
    }
}

/// Localize one message: parse the dotted key, look it up in the language's
/// tree and fill the leaf template with the arguments.
///
/// The contract names the parsed path only through its written form; by
/// `lemma_join_dots_injective` that form has exactly one well-formed
/// decomposition, so the clauses below fix the result for every input.
pub fn localize_message(store: &TranslationStore, translation_key: &str, language: Language, args: &Vec<String>) -> (r:
    Result<String, LocalizationError>)
    ensures
        has_empty_component(translation_key@) ==> (r matches Err(e) && e
            matches LocalizationError::BadKey(pe) && pe.spec_input() == translation_key@),
        !has_empty_component(translation_key@) ==> exists|path: Seq<Seq<char>>|
            components_well_formed(path) && path.len() > 0 && #[trigger] join_dots(path)
                == translation_key@ && localized(
                store,
                path,
                language,
                unescape_all(args.deep_view()),
                r,
            ),
{
    let key = match TranslationKey::from_str(translation_key) {
        Ok(k) => k,
        Err(e) => {
            return Err(LocalizationError::BadKey(e));
        },
    };
    let tree = match store.get(language) {
        Some(t) => t,
        None => {
            proof {
                lemma_localized_witness(store, key@, language, unescape_all(args.deep_view()),
                    Err(LocalizationError::UnsupportedLanguage(language)), translation_key@);
            }
            return Err(LocalizationError::UnsupportedLanguage(language));
        },
    };
    let path = key.as_slice();
    proof {
        assert(path.deep_view().skip(0) =~= key@);
    }
    let r = match lookup_node(tree, path, 0) {
        Some(node) => match node {
            TranslationNode::Leaf(template) => Ok(render_template(template.as_str(), args)),
            TranslationNode::Branch(_) => Err(LocalizationError::UnknownKey(key)),
        },
        None => Err(LocalizationError::UnknownKey(key)),
    };
    proof {
        let ghost path_v = path.deep_view();
        lemma_localized_witness(store, path_v, language, unescape_all(args.deep_view()), r,
            translation_key@);
    }
    r
}

/// Helper to surface the existential witness for `localize_message`.
proof fn lemma_localized_witness(
    store: &TranslationStore,
    path: Seq<Seq<char>>,
    language: Language,
    uargs: Seq<Seq<char>>,
    r: Result<String, LocalizationError>,
    written: Seq<char>,
)
    requires
        components_well_formed(path),
        path.len() > 0,
        join_dots(path) == written,
        localized(store, path, language, uargs, r),
    ensures
        exists|p: Seq<Seq<char>>|
            components_well_formed(p) && p.len() > 0 && #[trigger] join_dots(p) == written
                && localized(store, p, language, uargs, r),
{
    assert(components_well_formed(path) && path.len() > 0 && join_dots(path) == written
        && localized(store, path, language, uargs, r));
}

/// No tree loaded for the language: localization fails with
/// `UnsupportedLanguage`, whatever the key names and whatever the arguments
/// are.
pub proof fn lemma_unsupported_language(
    store: &TranslationStore,
    path: Seq<Seq<char>>,
    language: Language,
    uargs: Seq<Seq<char>>,
    r: Result<String, LocalizationError>,
)
    requires
        store.spec_get(language) is None,
        localized(store, path, language, uargs, r),
    ensures
        r matches Err(e) && e matches LocalizationError::UnsupportedLanguage(l) && l == language,
{
}

/// A path that resolves to a subtree rather than a leaf template fails with
/// `UnknownKey`, as does one that resolves to nothing.
pub proof fn lemma_subtree_is_unknown_key(
    store: &TranslationStore,
    path: Seq<Seq<char>>,
    language: Language,
    uargs: Seq<Seq<char>>,
    r: Result<String, LocalizationError>,
    tree: TranslationNode,
)
    requires
        store.spec_get(language) == Some(tree),
        !(node_lookup(tree, path) matches Some(n) && n is Leaf),
        localized(store, path, language, uargs, r),
    ensures
        r matches Err(e) && e matches LocalizationError::UnknownKey(k) && k@ == path,
{
}

/// A path that resolves to a leaf template succeeds, and the output is
/// exactly the template with its markers filled, in order, by the unescaped
/// arguments.
pub proof fn lemma_leaf_renders_template(
    store: &TranslationStore,
    path: Seq<Seq<char>>,
    language: Language,
    uargs: Seq<Seq<char>>,
    r: Result<String, LocalizationError>,
    tree: TranslationNode,
    template: String,
)
    requires
        store.spec_get(language) == Some(tree),
        node_lookup(tree, path) == Some(TranslationNode::Leaf(template)),
        localized(store, path, language, uargs, r),
    ensures
        r matches Ok(out) && out@ == substitute(template@, uargs),
{
}

} // verus!
