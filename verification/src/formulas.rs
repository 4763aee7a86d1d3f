//! Formula snippet library: a curated set of system formulas seeded on
//! first run, plus user-defined ones.  System formulas can be favourited
//! and counted but never edited or removed.

use vstd::prelude::*;

verus! {

use vstd::string::StringExecFns;
use crate::stamp::fresh_uuid;
use crate::stamp::now_rfc3339;
use crate::text::alphanumeric_char;
use crate::text::lower_of;
use crate::text::lowercase;
use crate::text::push_char;
use crate::text::str_eq;

/// Ghost image of a formula.
#[verifier::ext_equal]
pub struct FormulaView {
    pub id: Seq<char>,
    pub name: Seq<char>,
    pub description: Option<Seq<char>>,
    pub latex_content: Seq<char>,
    pub lml_content: Option<Seq<char>>,
    pub category: Seq<char>,
    pub subcategory: Option<Seq<char>>,
    pub tags: Seq<Seq<char>>,
    pub is_favorite: bool,
    pub is_system: bool,
    pub usage_count: u32,
    pub created_at: Seq<char>,
    pub updated_at: Seq<char>,
}

/// One formula snippet.
#[derive(Debug)]
pub struct Formula {
    pub id: String,
    pub name: String,
    pub description: Option<String>,
    pub latex_content: String,
    pub lml_content: Option<String>,
    pub category: String,
    pub subcategory: Option<String>,
    pub tags: Vec<String>,
    pub is_favorite: bool,
    pub is_system: bool,
    pub usage_count: u32,
    pub created_at: String,
    pub updated_at: String,
}

impl View for Formula {
    type V = FormulaView;

    open spec fn view(&self) -> FormulaView {
        FormulaView {
            id: self.id@,
            name: self.name@,
            description: (match self.description {
                Some(d) => Some(d@),
                None => None,
            }),
            latex_content: self.latex_content@,
            lml_content: (match self.lml_content {
                Some(l) => Some(l@),
                None => None,
            }),
            category: self.category@,
            subcategory: (match self.subcategory {
                Some(s) => Some(s@),
                None => None,
            }),
            tags: self.tags.deep_view(),
            is_favorite: self.is_favorite,
            is_system: self.is_system,
            usage_count: self.usage_count,
            created_at: self.created_at@,
            updated_at: self.updated_at@,
        }
    }
}

impl DeepView for Formula {
    type V = FormulaView;

    open spec fn deep_view(&self) -> FormulaView {
        self.view()
    }
}

fn clone_opt(o: &Option<String>) -> (r: Option<String>)
    ensures
        r.deep_view() == o.deep_view(),
{
    match o {
        Some(s) => Some(s.clone()),
        None => None,
    }
}

fn clone_strings(v: &Vec<String>) -> (r: Vec<String>)
    ensures
        r.deep_view() == v.deep_view(),
{
    let mut out: Vec<String> = Vec::new();
    let n = v.len();
    let mut i: usize = 0;
    while i < n
        invariant
            i <= n,
            n == v.len(),
            out.deep_view() =~= v.deep_view().take(i as int),
        decreases n - i,
    {
        let ghost od = out.deep_view();
        out.push(v[i].clone());
        proof {
            assert(out.deep_view() =~= od.push(v.deep_view()[i as int]));
            assert(v.deep_view().take(i as int + 1) =~= od.push(v.deep_view()[i as int]));
        }
        i = i + 1;
    }
    proof {
        assert(v.deep_view().take(n as int) =~= v.deep_view());
    }
    out
}

impl Clone for Formula {
    fn clone(&self) -> (r: Self)
        ensures
            r@ == self@,
    {
        Formula {
            id: self.id.clone(),
            name: self.name.clone(),
            description: clone_opt(&self.description),
            latex_content: self.latex_content.clone(),
            lml_content: clone_opt(&self.lml_content),
            category: self.category.clone(),
            subcategory: clone_opt(&self.subcategory),
            tags: clone_strings(&self.tags),
            is_favorite: self.is_favorite,
            is_system: self.is_system,
            usage_count: self.usage_count,
            created_at: self.created_at.clone(),
            updated_at: self.updated_at.clone(),
        }
    }
}

/// The persisted shape of the formula store.
pub struct FormulaData {
    pub formulas: Vec<Formula>,
}

/// A partial edit of a user formula; absent fields keep their value.
#[derive(Debug)]
pub struct FormulaUpdate {
    pub name: Option<String>,
    pub description: Option<String>,
    pub latex_content: Option<String>,
    pub category: Option<String>,
    pub subcategory: Option<String>,
    pub tags: Option<Vec<String>>,
}

// ---------------------------------------------------------------------------
// Slugs and equation blocks
// ---------------------------------------------------------------------------

/// Output and pending-separator state of slug building over the first `n`
/// characters: alphanumeric characters pass through, every maximal run of
/// other characters becomes a single '-' between segments, and no '-'
/// leads or trails.
pub open spec fn slug_rec(s: Seq<char>, n: int) -> (Seq<char>, bool)
    decreases n,
{
    if n <= 0 {
        (Seq::empty(), false)
    } else {
        let prev = slug_rec(s, n - 1);
        let c = s[n - 1];
        if alphanumeric_char(c) {
            if prev.1 && prev.0.len() > 0 {
                (prev.0.push('-').push(c), false)
            } else {
                (prev.0.push(c), false)
            }
        } else {
            (prev.0, true)
        }
    }
}

/// The slug of a name: its lowercase folding with alphanumeric runs kept
/// and joined by single dashes.
pub open spec fn slug_of(s: Seq<char>) -> Seq<char> {
    slug_rec(lower_of(s), lower_of(s).len() as int).0
}

/// Lowercases a name and joins its alphanumeric runs with dashes.
pub fn slugify(name: &str) -> (r: String)
    ensures
        r@ == slug_of(name@),
{
    proof {
        broadcast use vstd::string::axiom_spec_iter;

    }
    let lowered = lowercase(name);
    let mut out = String::new();
    let mut gap = false;
    for c in it: lowered.as_str().chars()
        invariant
            it.seq() == lowered@,
            lowered@ == lower_of(name@),
            out@ == slug_rec(lowered@, it.index()).0,
            gap == slug_rec(lowered@, it.index()).1,
    {
        if c.is_alphanumeric() {
            if gap && !out.as_str().is_empty() {
                push_char(&mut out, '-');
            }
            push_char(&mut out, c);
            gap = false;
        } else {
            gap = true;
        }
    }
    out
}

/// The equation block a formula's markup content is wrapped in.
pub open spec fn lml_of(slug: Seq<char>, latex: Seq<char>) -> Seq<char> {
    "\n@equation(label: eq:"@ + slug + ", mode: display)\n"@ + latex + "\n"@
}

fn lml_block(slug: &str, latex: &str) -> (r: String)
    ensures
        r@ == lml_of(slug@, latex@),
{
    let mut r = "\n@equation(label: eq:".to_owned();
    r.append(slug);
    r.append(", mode: display)\n");
    r.append(latex);
    r.append("\n");
    proof {
        assert(r@ =~= lml_of(slug@, latex@));
    }
    r
}

// ---------------------------------------------------------------------------
// Finding formulas
// ---------------------------------------------------------------------------

/// Whether a formula is the target of an operation on `id`; editing
/// operations (`only_user`) never target system formulas.
pub open spec fn matches_target(f: FormulaView, id: Seq<char>, only_user: bool) -> bool {
    f.id == id && (!only_user || !f.is_system)
}

/// Index of the first target at or after `i`, or -1.
pub open spec fn find_formula(fs: Seq<FormulaView>, id: Seq<char>, only_user: bool, i: int) -> int
    decreases fs.len() - i,
{
    if i < 0 || i >= fs.len() {
        -1
    } else if matches_target(fs[i], id, only_user) {
        i
    } else {
        find_formula(fs, id, only_user, i + 1)
    }
}

proof fn lemma_find_from(fs: Seq<FormulaView>, id: Seq<char>, only_user: bool, i: int)
    requires
        0 <= i <= fs.len(),
        forall|j: int| 0 <= j < i ==> !matches_target(#[trigger] fs[j], id, only_user),
    ensures
        find_formula(fs, id, only_user, 0) == find_formula(fs, id, only_user, i),
    decreases i,
{
    if i > 0 {
        lemma_find_from(fs, id, only_user, i - 1);
    }
}

fn position_of(v: &Vec<Formula>, id: &str, only_user: bool) -> (r: Option<usize>)
    ensures
        (match r {
            Some(i) => i < v.deep_view().len() && find_formula(v.deep_view(), id@, only_user, 0)
                == i,
            None => find_formula(v.deep_view(), id@, only_user, 0) == -1,
        }),
{
    let n = v.len();
    let mut i: usize = 0;
    while i < n
        invariant
            i <= n,
            n == v.len(),
            forall|j: int| 0 <= j < i ==> !matches_target(#[trigger] v.deep_view()[j], id@, only_user),
        decreases n - i,
    {
        let f = &v[i];
        if str_eq(f.id.as_str(), id) && (!only_user || !f.is_system) {
            proof {
                assert(matches_target(v.deep_view()[i as int], id@, only_user));
                lemma_find_from(v.deep_view(), id@, only_user, i as int);
            }
            return Some(i);
        }
        proof {
            assert(!matches_target(v.deep_view()[i as int], id@, only_user));
        }
        i = i + 1;
    }
    proof {
        lemma_find_from(v.deep_view(), id@, only_user, n as int);
    }
    None
}

// ---------------------------------------------------------------------------
// Editing
// ---------------------------------------------------------------------------

/// A formula after a partial edit: absent fields keep their value, a new
/// latex body also rebuilds the equation block from the (possibly new)
/// name's slug, and the update stamp is refreshed.
pub open spec fn applied_update(
    f: FormulaView,
    name: Option<Seq<char>>,
    description: Option<Seq<char>>,
    latex: Option<Seq<char>>,
    category: Option<Seq<char>>,
    subcategory: Option<Seq<char>>,
    tags: Option<Seq<Seq<char>>>,
    stamp: Seq<char>,
) -> FormulaView {
    let new_name = (match name {
        Some(n) => n,
        None => f.name,
    });
    FormulaView {
        id: f.id,
        name: new_name,
        description: (match description {
            Some(d) => Some(d),
            None => f.description,
        }),
        latex_content: (match latex {
            Some(l) => l,
            None => f.latex_content,
        }),
        lml_content: (match latex {
            Some(l) => Some(lml_of(slug_of(new_name), l)),
            None => f.lml_content,
        }),
        category: (match category {
            Some(c) => c,
            None => f.category,
        }),
        subcategory: (match subcategory {
            Some(s) => Some(s),
            None => f.subcategory,
        }),
        tags: (match tags {
            Some(t) => t,
            None => f.tags,
        }),
        is_favorite: f.is_favorite,
        is_system: f.is_system,
        usage_count: f.usage_count,
        created_at: f.created_at,
        updated_at: stamp,
    }
}

/// A formula after its favourite flag flips.
pub open spec fn toggled(f: FormulaView, stamp: Seq<char>) -> FormulaView {
    FormulaView { is_favorite: !f.is_favorite, updated_at: stamp, ..f }
}

/// A formula after one more use, the counter wrapping at 2^32.
pub open spec fn used_once(f: FormulaView, stamp: Seq<char>) -> FormulaView {
    FormulaView {
        usage_count: ((f.usage_count + 1) % 0x1_0000_0000) as u32,
        updated_at: stamp,
        ..f
    }
}

// ---------------------------------------------------------------------------
// The manager
// ---------------------------------------------------------------------------

/// What every seeded system formula looks like.
pub open spec fn seed_shape(f: FormulaView) -> bool {
    f.is_system && !f.is_favorite && f.usage_count == 0
}

/// Holds the formula store between loads and saves.
pub struct FormulaManager {
    data: FormulaData,
}

impl FormulaManager {
    /// The stored formulas, in insertion order.
    pub closed spec fn formulas_view(&self) -> Seq<FormulaView> {
        self.data.formulas.deep_view()
    }

    /// Built from whatever the store file yielded; a missing or
    /// unparsable store is replaced by the seeded system set, which the
    /// caller persists.
    pub fn new(loaded: Option<FormulaData>) -> (r: Self)
        ensures
            (match loaded {
                Some(d) => r.formulas_view() == d.formulas.deep_view(),
                None => r.formulas_view().len() == 41 && forall|i: int|
                    0 <= i < r.formulas_view().len() ==> seed_shape(
                        #[trigger] r.formulas_view()[i],
                    ),
            }),
    {
        match loaded {
            Some(d) => FormulaManager { data: d },
            None => FormulaManager { data: FormulaData { formulas: seed_system_formulas() } },
        }
    }

    /// A copy of every stored formula.
    pub fn get_all(&self) -> (r: Vec<Formula>)
        ensures
            r.deep_view() == self.formulas_view(),
    {
        let mut out: Vec<Formula> = Vec::new();
        let n = self.data.formulas.len();
        let mut i: usize = 0;
        while i < n
            invariant
                i <= n,
                n == self.data.formulas.len(),
                out.deep_view() =~= self.formulas_view().take(i as int),
            decreases n - i,
        {
            let ghost od = out.deep_view();
            out.push(self.data.formulas[i].clone());
            proof {
                assert(out.deep_view() =~= od.push(self.formulas_view()[i as int]));
                assert(self.formulas_view().take(i as int + 1) =~= od.push(
                    self.formulas_view()[i as int],
                ));
            }
            i = i + 1;
        }
        proof {
            assert(self.formulas_view().take(n as int) =~= self.formulas_view());
        }
        out
    }

    /// Appends a formula and returns it.
    pub fn add(&mut self, formula: Formula) -> (r: Formula)
        ensures
            final(self).formulas_view() == old(self).formulas_view().push(formula@),
            r@ == formula@,
    {
        let ghost before = self.formulas_view();
        let copy = formula.clone();
        self.data.formulas.push(copy);
        proof {
            assert(self.formulas_view() =~= before.push(formula@));
        }
        formula
    }

    /// Applies a partial edit to the first user formula with the given
    /// id; system formulas and unknown ids are untouched and yield None.
    pub fn update(&mut self, id: &str, updates: FormulaUpdate) -> (r: Option<Formula>)
        ensures
            ({
                let fs = old(self).formulas_view();
                let i = find_formula(fs, id@, true, 0);
                if i == -1 {
                    r is None && final(self).formulas_view() == fs
                } else {
                    r matches Some(g) && final(self).formulas_view() == fs.update(i, g@) && g@
                        == applied_update(
                        fs[i],
                        updates.name.deep_view(),
                        updates.description.deep_view(),
                        updates.latex_content.deep_view(),
                        updates.category.deep_view(),
                        updates.subcategory.deep_view(),
                        updates.tags.deep_view(),
                        g@.updated_at,
                    )
                }
            }),
    {
        let ghost fs = self.formulas_view();
        match position_of(&self.data.formulas, id, true) {
            None => None,
            Some(i) => {
                let current = &self.data.formulas[i];
                let name = (match updates.name {
                    Some(n) => n,
                    None => current.name.clone(),
                });
                let description = (match updates.description {
                    Some(d) => Some(d),
                    None => clone_opt(&current.description),
                });
                let (latex_content, lml_content) = (match updates.latex_content {
                    Some(l) => {
                        let slug = slugify(name.as_str());
                        let block = lml_block(slug.as_str(), l.as_str());
                        (l, Some(block))
                    },
                    None => (current.latex_content.clone(), clone_opt(&current.lml_content)),
                });
                let category = (match updates.category {
                    Some(c) => c,
                    None => current.category.clone(),
                });
                let subcategory = (match updates.subcategory {
                    Some(s) => Some(s),
                    None => clone_opt(&current.subcategory),
                });
                let tags = (match updates.tags {
                    Some(t) => t,
                    None => clone_strings(&current.tags),
                });
                let updated = Formula {
                    id: current.id.clone(),
                    name,
                    description,
                    latex_content,
                    lml_content,
                    category,
                    subcategory,
                    tags,
                    is_favorite: current.is_favorite,
                    is_system: current.is_system,
                    usage_count: current.usage_count,
                    created_at: current.created_at.clone(),
                    updated_at: now_rfc3339(),
                };
                let result = updated.clone();
                self.data.formulas.set(i, updated);
                proof {
                    assert(self.formulas_view() =~= fs.update(i as int, result@));
                    assert(result@ =~= applied_update(
                        fs[i as int],
                        updates.name.deep_view(),
                        updates.description.deep_view(),
                        updates.latex_content.deep_view(),
                        updates.category.deep_view(),
                        updates.subcategory.deep_view(),
                        updates.tags.deep_view(),
                        result@.updated_at,
                    ));
                }
                Some(result)
            },
        }
    }

    /// Removes the user formula with the given id; system formulas stay.
    /// True exactly when something was removed.
    pub fn remove(&mut self, id: &str) -> (r: bool)
        ensures
            final(self).formulas_view() == old(self).formulas_view().filter(
                |f: FormulaView| f.id != id@ || f.is_system,
            ),
            r == (final(self).formulas_view().len() < old(self).formulas_view().len()),
    {
        let ghost pred = |f: FormulaView| f.id != id@ || f.is_system;
        let mut kept: Vec<Formula> = Vec::new();
        let n = self.data.formulas.len();
        let mut i: usize = 0;
        while i < n
            invariant
                i <= n,
                n == self.data.formulas.len(),
                kept.deep_view() =~= self.formulas_view().take(i as int).filter(pred),
                pred == (|f: FormulaView| f.id != id@ || f.is_system),
            decreases n - i,
        {
            let f = &self.data.formulas[i];
            let ghost prefix = self.formulas_view().take(i as int);
            let ghost cur = self.formulas_view()[i as int];
            let ghost kd = kept.deep_view();
            proof {
                assert(self.formulas_view().take(i as int + 1) =~= prefix.push(cur));
                prefix.lemma_filter_push(cur, pred);
            }
            if !str_eq(f.id.as_str(), id) || f.is_system {
                kept.push(f.clone());
                proof {
                    assert(kept.deep_view() =~= kd.push(cur));
                }
            }
            i = i + 1;
        }
        proof {
            assert(self.formulas_view().take(n as int) =~= self.formulas_view());
            self.formulas_view().lemma_filter_len(pred);
        }
        let removed_any = kept.len() < self.data.formulas.len();
        self.data.formulas = kept;
        removed_any
    }

    /// Flips the favourite flag of the formula with the given id (system
    /// ones included) and refreshes its update stamp.
    pub fn toggle_favorite(&mut self, id: &str) -> (r: Option<Formula>)
        ensures
            ({
                let fs = old(self).formulas_view();
                let i = find_formula(fs, id@, false, 0);
                if i == -1 {
                    r is None && final(self).formulas_view() == fs
                } else {
                    r matches Some(g) && final(self).formulas_view() == fs.update(i, g@) && g@
                        == toggled(fs[i], g@.updated_at)
                }
            }),
    {
        let ghost fs = self.formulas_view();
        match position_of(&self.data.formulas, id, false) {
            None => None,
            Some(i) => {
                let current = &self.data.formulas[i];
                let mut updated = current.clone();
                updated.is_favorite = !current.is_favorite;
                updated.updated_at = now_rfc3339();
                let result = updated.clone();
                self.data.formulas.set(i, updated);
                proof {
                    assert(self.formulas_view() =~= fs.update(i as int, result@));
                    assert(result@ =~= toggled(fs[i as int], result@.updated_at));
                }
                Some(result)
            },
        }
    }

    /// Counts one more use of the formula with the given id and
    /// refreshes its update stamp.
    pub fn increment_usage(&mut self, id: &str) -> (r: Option<Formula>)
        ensures
            ({
                let fs = old(self).formulas_view();
                let i = find_formula(fs, id@, false, 0);
                if i == -1 {
                    r is None && final(self).formulas_view() == fs
                } else {
                    r matches Some(g) && final(self).formulas_view() == fs.update(i, g@) && g@
                        == used_once(fs[i], g@.updated_at)
                }
            }),
    {
        let ghost fs = self.formulas_view();
        match position_of(&self.data.formulas, id, false) {
            None => None,
            Some(i) => {
                let current = &self.data.formulas[i];
                let mut updated = current.clone();
                updated.usage_count = if current.usage_count == u32::MAX {
                    0
                } else {
                    current.usage_count + 1
                };
                updated.updated_at = now_rfc3339();
                let result = updated.clone();
                self.data.formulas.set(i, updated);
                proof {
                    assert(self.formulas_view() =~= fs.update(i as int, result@));
                    assert(result@ =~= used_once(fs[i as int], result@.updated_at));
                }
                Some(result)
            },
        }
    }
}

// ---------------------------------------------------------------------------
// The seed set
// ---------------------------------------------------------------------------

/// Builds one seeded system formula.
fn system_formula(
    name: &str,
    desc: &str,
    category: &str,
    subcategory: &str,
    latex: &str,
    tags: Vec<String>,
) -> (r: Formula)
    ensures
        seed_shape(r@),
{
    let slug = slugify(name);
    let lml = lml_block(slug.as_str(), latex);
    let now = now_rfc3339();
    Formula {
        id: fresh_uuid(),
        name: name.to_owned(),
        description: Some(desc.to_owned()),
        latex_content: latex.to_owned(),
        lml_content: Some(lml),
        category: category.to_owned(),
        subcategory: Some(subcategory.to_owned()),
        tags,
        is_favorite: false,
        is_system: true,
        usage_count: 0,
        created_at: now.clone(),
        updated_at: now,
    }
}

fn push_seed(v: &mut Vec<Formula>, f: Formula)
    requires
        forall|i: int|
            0 <= i < old(v).deep_view().len() ==> seed_shape(#[trigger] old(v).deep_view()[i]),
        seed_shape(f@),
    ensures
        final(v).deep_view().len() == old(v).deep_view().len() + 1,
        forall|i: int|
            0 <= i < final(v).deep_view().len() ==> seed_shape(#[trigger] final(v).deep_view()[i]),
{
    let ghost before = v.deep_view();
    v.push(f);
    proof {
        assert(v.deep_view() =~= before.push(f@));
    }
}

fn tag1(a: &str) -> Vec<String> {
    let mut v: Vec<String> = Vec::new();
    v.push(a.to_owned());
    v
}

fn tag2(a: &str, b: &str) -> Vec<String> {
    let mut v: Vec<String> = Vec::new();
    v.push(a.to_owned());
    v.push(b.to_owned());
    v
}

/// The curated system formulas a fresh store is seeded with.
pub fn seed_system_formulas() -> (r: Vec<Formula>)
    ensures
        r.deep_view().len() == 41,
        forall|i: int| 0 <= i < r.deep_view().len() ==> seed_shape(#[trigger] r.deep_view()[i]),
{
    let mut v: Vec<Formula> = Vec::new();
    // Math - algebra
    push_seed(&mut v, system_formula("Quadratic Formula", "Solutions to ax² + bx + c = 0",
        "math", "algebra", r"x = \frac{-b \pm \sqrt{b^2 - 4ac}}{2a}", tag2("roots", "polynomial")));
    push_seed(&mut v, system_formula("Binomial Theorem", "Expansion of (a + b)^n",
        "math", "algebra", r"(a + b)^n = \sum_{k=0}^{n} \binom{n}{k} a^{n-k} b^k",
        tag2("expansion", "combinatorics")));
    push_seed(&mut v, system_formula("Logarithm Change of Base", "Change base of logarithm",
        "math", "algebra", r"\log_b a = \frac{\ln a}{\ln b}", tag2("logarithm", "base")));
    push_seed(&mut v, system_formula("Geometric Series Sum", "Sum of infinite geometric series",
        "math", "algebra", r"\sum_{k=0}^{\infty} ar^k = \frac{a}{1-r}, \quad |r| < 1",
        tag2("series", "infinite")));
    // Math - calculus
    push_seed(&mut v, system_formula("Fundamental Theorem of Calculus",
        "Connects differentiation and integration", "math", "calculus",
        r"\int_a^b f'(x)\,dx = f(b) - f(a)", tag2("integral", "derivative")));
    push_seed(&mut v, system_formula("Integration by Parts", "Product rule for integration",
        "math", "calculus", r"\int u\,dv = uv - \int v\,du", tag2("integral", "technique")));
    push_seed(&mut v, system_formula("Chain Rule", "Derivative of composite functions",
        "math", "calculus", r"\frac{d}{dx}[f(g(x))] = f'(g(x)) \cdot g'(x)",
        tag2("derivative", "composite")));
    push_seed(&mut v, system_formula("Taylor Series", "Power series expansion of a function",
        "math", "calculus", r"f(x) = \sum_{n=0}^{\infty} \frac{f^{(n)}(a)}{n!}(x-a)^n",
        tag2("series", "expansion")));
    push_seed(&mut v, system_formula("L'Hôpital's Rule", "Evaluate limits of indeterminate forms",
        "math", "calculus", r"\lim_{x \to c} \frac{f(x)}{g(x)} = \lim_{x \to c} \frac{f'(x)}{g'(x)}",
        tag1("limit")));
    push_seed(&mut v, system_formula("Gaussian Integral", "Integral of e^(-x²)",
        "math", "calculus", r"\int_{-\infty}^{\infty} e^{-x^2}\,dx = \sqrt{\pi}",
        tag2("integral", "gaussian")));
    // Math - trigonometry
    push_seed(&mut v, system_formula("Pythagorean Identity", "Fundamental trig identity",
        "math", "trigonometry", r"\sin^2\theta + \cos^2\theta = 1", tag1("identity")));
    push_seed(&mut v, system_formula("Euler's Formula", "Complex exponential and trig",
        "math", "trigonometry", r"e^{i\theta} = \cos\theta + i\sin\theta", tag2("complex", "euler")));
    push_seed(&mut v, system_formula("Law of Cosines", "Generalized Pythagorean theorem",
        "math", "trigonometry", r"c^2 = a^2 + b^2 - 2ab\cos C", tag1("triangle")));
    push_seed(&mut v, system_formula("Double Angle (Sine)", "Sin of double angle",
        "math", "trigonometry", r"\sin 2\theta = 2\sin\theta\cos\theta", tag1("identity")));
    // Math - linear algebra
    push_seed(&mut v, system_formula("Matrix Determinant (2×2)", "Determinant of a 2×2 matrix",
        "math", "linear-algebra",
        r"\det\begin{pmatrix} a & b \\ c & d \end{pmatrix} = ad - bc",
        tag2("matrix", "determinant")));
    push_seed(&mut v, system_formula("Eigenvalue Equation", "Definition of eigenvalues",
        "math", "linear-algebra", r"A\mathbf{v} = \lambda\mathbf{v}", tag1("eigenvalue")));
    push_seed(&mut v, system_formula("Dot Product", "Inner product of vectors",
        "math", "linear-algebra",
        r"\mathbf{a} \cdot \mathbf{b} = \sum_{i=1}^{n} a_i b_i = \|\mathbf{a}\|\|\mathbf{b}\|\cos\theta",
        tag1("vector")));
    // Math - set theory
    push_seed(&mut v, system_formula("De Morgan's Laws", "Complement of union/intersection",
        "math", "set-theory", r"\overline{A \cup B} = \overline{A} \cap \overline{B}",
        tag1("sets")));
    // Physics - mechanics
    push_seed(&mut v, system_formula("Newton's Second Law", "Force equals mass times acceleration",
        "physics", "mechanics", r"\mathbf{F} = m\mathbf{a}", tag2("force", "newton")));
    push_seed(&mut v, system_formula("Kinetic Energy", "Energy of motion",
        "physics", "mechanics", r"E_k = \frac{1}{2}mv^2", tag1("energy")));
    push_seed(&mut v, system_formula("Newton's Law of Gravitation",
        "Gravitational force between two masses", "physics", "mechanics",
        r"F = G\frac{m_1 m_2}{r^2}", tag1("gravity")));
    push_seed(&mut v, system_formula("Simple Harmonic Motion", "Position in SHM",
        "physics", "mechanics", r"x(t) = A\cos(\omega t + \phi)", tag1("oscillation")));
    // Physics - electromagnetism
    push_seed(&mut v, system_formula("Coulomb's Law", "Electric force between charges",
        "physics", "electromagnetism", r"F = k_e \frac{q_1 q_2}{r^2}", tag2("electric", "charge")));
    push_seed(&mut v, system_formula("Maxwell's Equations (Gauss)", "Gauss's law for electric fields",
        "physics", "electromagnetism", r"\nabla \cdot \mathbf{E} = \frac{\rho}{\varepsilon_0}",
        tag1("maxwell")));
    push_seed(&mut v, system_formula("Ohm's Law", "Voltage, current, resistance relationship",
        "physics", "electromagnetism", r"V = IR", tag1("circuit")));
    // Physics - thermodynamics
    push_seed(&mut v, system_formula("Ideal Gas Law", "PV = nRT",
        "physics", "thermodynamics", r"PV = nRT", tag1("gas")));
    push_seed(&mut v, system_formula("Boltzmann Entropy", "Statistical definition of entropy",
        "physics", "thermodynamics", r"S = k_B \ln \Omega", tag1("entropy")));
    // Physics - quantum mechanics
    push_seed(&mut v, system_formula("Schrödinger Equation", "Time-dependent Schrödinger equation",
        "physics", "quantum-mechanics", r"i\hbar\frac{\partial}{\partial t}\Psi = \hat{H}\Psi",
        tag1("wavefunction")));
    push_seed(&mut v, system_formula("Heisenberg Uncertainty", "Position-momentum uncertainty",
        "physics", "quantum-mechanics", r"\Delta x \, \Delta p \geq \frac{\hbar}{2}",
        tag1("uncertainty")));
    // Physics - relativity
    push_seed(&mut v, system_formula("Mass-Energy Equivalence", "Einstein's famous equation",
        "physics", "relativity", r"E = mc^2", tag1("einstein")));
    push_seed(&mut v, system_formula("Lorentz Factor", "Time dilation factor",
        "physics", "relativity", r"\gamma = \frac{1}{\sqrt{1 - \frac{v^2}{c^2}}}",
        tag1("lorentz")));
    // Chemistry
    push_seed(&mut v, system_formula("Nernst Equation",
        "Electrode potential under non-standard conditions", "chemistry", "physical-chemistry",
        r"E = E^\circ - \frac{RT}{nF}\ln Q", tag1("electrochemistry")));
    push_seed(&mut v, system_formula("Arrhenius Equation",
        "Temperature dependence of reaction rates", "chemistry", "physical-chemistry",
        r"k = A e^{-E_a / RT}", tag1("kinetics")));
    push_seed(&mut v, system_formula("Henderson-Hasselbalch", "pH of buffer solutions",
        "chemistry", "general-chemistry",
        r"\text{pH} = \text{p}K_a + \log\frac{[\text{A}^-]}{[\text{HA}]}", tag2("pH", "buffer")));
    push_seed(&mut v, system_formula("Gibbs Free Energy", "Spontaneity of reactions",
        "chemistry", "physical-chemistry", r"\Delta G = \Delta H - T\Delta S",
        tag1("thermodynamics")));
    // Statistics
    push_seed(&mut v, system_formula("Bayes' Theorem", "Conditional probability",
        "statistics", "probability", r"P(A|B) = \frac{P(B|A)\,P(A)}{P(B)}", tag1("probability")));
    push_seed(&mut v, system_formula("Normal Distribution", "Gaussian probability density function",
        "statistics", "distributions",
        r"f(x) = \frac{1}{\sigma\sqrt{2\pi}} e^{-\frac{(x-\mu)^2}{2\sigma^2}}", tag1("gaussian")));
    push_seed(&mut v, system_formula("Standard Deviation", "Measure of dispersion",
        "statistics", "distributions", r"\sigma = \sqrt{\frac{1}{N}\sum_{i=1}^{N}(x_i - \mu)^2}",
        tag1("variance")));
    // Computer science
    push_seed(&mut v, system_formula("Shannon Entropy", "Information entropy",
        "computer-science", "information-theory", r"H(X) = -\sum_{i} p(x_i) \log_2 p(x_i)",
        tag1("information")));
    push_seed(&mut v, system_formula("Stirling's Approximation", "Approximation of factorial",
        "computer-science", "algorithms", r"\ln n! \approx n\ln n - n", tag1("factorial")));
    push_seed(&mut v, system_formula("Big-O Master Theorem", "Recurrence relation solution",
        "computer-science", "algorithms", r"T(n) = aT\!\left(\frac{n}{b}\right) + O(n^d)",
        tag1("complexity")));
    v
}

} // verus!
