use vstd::prelude::*;

verus! {

/// The optional filter fields of a search or listing request. Every field is
/// a string the caller has already rendered; an unset field is left out of
/// the request entirely.
#[derive(Debug, PartialEq)]
pub struct Params {
    pub content_types: Option<String>,
    pub presentation_types: Option<String>,
    pub providers: Option<String>,
    pub genres: Option<String>,
    pub languages: Option<String>,
    pub release_year_from: Option<String>,
    pub release_year_until: Option<String>,
    pub monetization_types: Option<String>,
    pub min_price: Option<String>,
    pub max_price: Option<String>,
    pub scoring_filter_types: Option<String>,
    pub cinema_release: Option<String>,
    pub query: Option<String>,
    pub page: Option<String>,
    pub page_size: Option<String>,
}

pub struct ParamsModel {
    pub content_types: Option<Seq<char>>,
    pub presentation_types: Option<Seq<char>>,
    pub providers: Option<Seq<char>>,
    pub genres: Option<Seq<char>>,
    pub languages: Option<Seq<char>>,
    pub release_year_from: Option<Seq<char>>,
    pub release_year_until: Option<Seq<char>>,
    pub monetization_types: Option<Seq<char>>,
    pub min_price: Option<Seq<char>>,
    pub max_price: Option<Seq<char>>,
    pub scoring_filter_types: Option<Seq<char>>,
    pub cinema_release: Option<Seq<char>>,
    pub query: Option<Seq<char>>,
    pub page: Option<Seq<char>>,
    pub page_size: Option<Seq<char>>,
}

impl View for Params {
    type V = ParamsModel;

    open spec fn view(&self) -> ParamsModel {
        ParamsModel {
            content_types: self.content_types.deep_view(),
            presentation_types: self.presentation_types.deep_view(),
            providers: self.providers.deep_view(),
            genres: self.genres.deep_view(),
            languages: self.languages.deep_view(),
            release_year_from: self.release_year_from.deep_view(),
            release_year_until: self.release_year_until.deep_view(),
            monetization_types: self.monetization_types.deep_view(),
            min_price: self.min_price.deep_view(),
            max_price: self.max_price.deep_view(),
            scoring_filter_types: self.scoring_filter_types.deep_view(),
            cinema_release: self.cinema_release.deep_view(),
            query: self.query.deep_view(),
            page: self.page.deep_view(),
            page_size: self.page_size.deep_view(),
        }
    }
}

impl DeepView for Params {
    type V = ParamsModel;

    open spec fn deep_view(&self) -> ParamsModel {
        self.view()
    }
}

/// The model of a request without a single field set.
pub open spec fn spec_params_empty() -> ParamsModel {
    ParamsModel {
        content_types: None,
        presentation_types: None,
        providers: None,
        genres: None,
        languages: None,
        release_year_from: None,
        release_year_until: None,
        monetization_types: None,
        min_price: None,
        max_price: None,
        scoring_filter_types: None,
        cinema_release: None,
        query: None,
        page: None,
        page_size: None,
    }
}

impl Default for Params {
    fn default() -> (r: Self)
        ensures
            r@ == spec_params_empty(),
    {
        Params {
            content_types: None,
            presentation_types: None,
            providers: None,
            genres: None,
            languages: None,
            release_year_from: None,
            release_year_until: None,
            monetization_types: None,
            min_price: None,
            max_price: None,
            scoring_filter_types: None,
            cinema_release: None,
            query: None,
            page: None,
            page_size: None,
        }
    }
}

impl Params {
    /// Sets the free-text query to the title searched for and leaves every
    /// other field as it was.
    pub fn movie_title(self, movie: &str) -> (r: Self)
        ensures
            r@ == (ParamsModel { query: Some(movie@), ..self@ }),
    {
        Params { query: Some(movie.to_owned()), ..self }
    }
}

/// Appends the pair for a set field to the pair list, and keeps the list as
/// it is for an unset field.
pub open spec fn opt_push(
    pairs: Seq<(Seq<char>, Seq<char>)>,
    key: Seq<char>,
    v: Option<Seq<char>>,
) -> Seq<(Seq<char>, Seq<char>)> {
    match v {
        Some(s) => pairs.push((key, s)),
        None => pairs,
    }
}

/// The key=value pairs of the set fields, in declaration order.
pub open spec fn spec_params_pairs(p: ParamsModel) -> Seq<(Seq<char>, Seq<char>)> {
    opt_push(
        opt_push(
            opt_push(
                opt_push(
                    opt_push(
                        opt_push(
                            opt_push(
                                opt_push(
                                    opt_push(
                                        opt_push(
                                            opt_push(
                                                opt_push(
                                                    opt_push(
                                                        opt_push(
                                                            opt_push(
                                                                Seq::empty(),
                                                                "content_types"@,
                                                                p.content_types,
                                                            ),
                                                            "presentation_types"@,
                                                            p.presentation_types,
                                                        ),
                                                        "providers"@,
                                                        p.providers,
                                                    ),
                                                    "genres"@,
                                                    p.genres,
                                                ),
                                                "languages"@,
                                                p.languages,
                                            ),
                                            "release_year_from"@,
                                            p.release_year_from,
                                        ),
                                        "release_year_until"@,
                                        p.release_year_until,
                                    ),
                                    "monetization_types"@,
                                    p.monetization_types,
                                ),
                                "min_price"@,
                                p.min_price,
                            ),
                            "max_price"@,
                            p.max_price,
                        ),
                        "scoring_filter_types"@,
                        p.scoring_filter_types,
                    ),
                    "cinema_release"@,
                    p.cinema_release,
                ),
                "query"@,
                p.query,
            ),
            "page"@,
            p.page,
        ),
        "page_size"@,
        p.page_size,
    )
}

/// One key=value token.
pub open spec fn spec_pair_text(k: Seq<char>, v: Seq<char>) -> Seq<char> {
    k + "="@ + v
}

/// The pairs joined with a single ampersand between neighbours: nothing for
/// no pair, and never a leading or trailing ampersand.
pub open spec fn spec_render_pairs(pairs: Seq<(Seq<char>, Seq<char>)>) -> Seq<char>
    decreases pairs.len(),
{
    if pairs.len() == 0 {
        Seq::empty()
    } else if pairs.len() == 1 {
        spec_pair_text(pairs[0].0, pairs[0].1)
    } else {
        spec_render_pairs(pairs.drop_last()) + "&"@ + spec_pair_text(
            pairs.last().0,
            pairs.last().1,
        )
    }
}

fn append_field(
    out: &mut String,
    first: &mut bool,
    key: &str,
    v: &Option<String>,
    acc: Ghost<Seq<(Seq<char>, Seq<char>)>>,
) -> (newacc: Ghost<Seq<(Seq<char>, Seq<char>)>>)
    requires
        old(out)@ == spec_render_pairs(acc@),
        *old(first) == (acc@.len() == 0),
    ensures
        newacc@ == opt_push(acc@, key@, v.deep_view()),
        final(out)@ == spec_render_pairs(newacc@),
        *final(first) == (newacc@.len() == 0),
{
    match v {
        Some(s) => {
            if !*first {
                out.append("&");
            }
            out.append(key);
            out.append("=");
            out.append(s.as_str());
            *first = false;
            proof {
                assert(acc@.push((key@, s@)).drop_last() =~= acc@);
                assert(acc@.push((key@, s@)).last() == (key@, s@));
            }
            Ghost(acc@.push((key@, s@)))
        },
        None => Ghost(acc@),
    }
}

impl Params {
    /// Renders the set fields, in declaration order, as key=value tokens
    /// joined by single ampersands; an unset field leaves no trace.
    pub fn to_query_string(&self) -> (r: String)
        ensures
            r@ == spec_render_pairs(spec_params_pairs(self@)),
    {
        let mut out = String::new();
        let mut first = true;
        let mut acc: Ghost<Seq<(Seq<char>, Seq<char>)>> = Ghost(Seq::empty());
        acc = append_field(&mut out, &mut first, "content_types", &self.content_types, acc);
        acc = append_field(
            &mut out,
            &mut first,
            "presentation_types",
            &self.presentation_types,
            acc,
        );
        acc = append_field(&mut out, &mut first, "providers", &self.providers, acc);
        acc = append_field(&mut out, &mut first, "genres", &self.genres, acc);
        acc = append_field(&mut out, &mut first, "languages", &self.languages, acc);
        acc = append_field(&mut out, &mut first, "release_year_from", &self.release_year_from, acc);
        acc = append_field(
            &mut out,
            &mut first,
            "release_year_until",
            &self.release_year_until,
            acc,
        );
        acc = append_field(
            &mut out,
            &mut first,
            "monetization_types",
            &self.monetization_types,
            acc,
        );
        acc = append_field(&mut out, &mut first, "min_price", &self.min_price, acc);
        acc = append_field(&mut out, &mut first, "max_price", &self.max_price, acc);
        acc = append_field(
            &mut out,
            &mut first,
            "scoring_filter_types",
            &self.scoring_filter_types,
            acc,
        );
        acc = append_field(&mut out, &mut first, "cinema_release", &self.cinema_release, acc);
        acc = append_field(&mut out, &mut first, "query", &self.query, acc);
        acc = append_field(&mut out, &mut first, "page", &self.page, acc);
        acc = append_field(&mut out, &mut first, "page_size", &self.page_size, acc);
        out
    }
}

} // verus!

verus! {

/// The tokens of a string split on every ampersand; an empty string is one
/// empty token, and each further ampersand opens one further token.
pub open spec fn spec_split_amp(s: Seq<char>) -> Seq<Seq<char>>
    decreases s.len(),
{
    if s.len() == 0 {
        seq![Seq::<char>::empty()]
    } else if s.last() == '&' {
        spec_split_amp(s.drop_last()).push(Seq::<char>::empty())
    } else {
        let r = spec_split_amp(s.drop_last());
        r.update(r.len() - 1, r.last().push(s.last()))
    }
}

proof fn lemma_split_len(s: Seq<char>)
    ensures
        spec_split_amp(s).len() >= 1,
    decreases s.len(),
{
    if s.len() > 0 {
        lemma_split_len(s.drop_last());
    }
}

proof fn lemma_drop_last_no_amp(s: Seq<char>)
    requires
        !s.contains('&'),
        s.len() > 0,
    ensures
        !s.drop_last().contains('&'),
        s.last() != '&',
{
    if s.last() == '&' {
        assert(s[s.len() - 1] == '&');
        assert(s.contains('&'));
    }
    if s.drop_last().contains('&') {
        let i = choose|i: int| 0 <= i < s.drop_last().len() && s.drop_last()[i] == '&';
        assert(s[i] == '&');
        assert(s.contains('&'));
    }
}

proof fn lemma_split_no_amp(s: Seq<char>)
    requires
        !s.contains('&'),
    ensures
        spec_split_amp(s) == seq![s],
    decreases s.len(),
{
    if s.len() == 0 {
        assert(s =~= Seq::<char>::empty());
        assert(seq![Seq::<char>::empty()] =~~= seq![s]);
    } else {
        lemma_drop_last_no_amp(s);
        lemma_split_no_amp(s.drop_last());
        assert(s.drop_last().push(s.last()) =~= s);
        assert(seq![s.drop_last()].update(0, s.drop_last().push(s.last())) =~= seq![s]);
    }
}

proof fn lemma_split_append(a: Seq<char>, b: Seq<char>)
    requires
        !b.contains('&'),
    ensures
        spec_split_amp(a + seq!['&'] + b) == spec_split_amp(a).push(b),
    decreases b.len(),
{
    if b.len() == 0 {
        assert((a + seq!['&'] + b) =~= a.push('&'));
        assert(a.push('&').drop_last() =~= a);
        assert(a.push('&').last() == '&');
        assert(b =~= Seq::<char>::empty());
        assert(spec_split_amp(a.push('&')) == spec_split_amp(a).push(b));
    } else {
        let s = a + seq!['&'] + b;
        lemma_drop_last_no_amp(b);
        assert(s.last() == b.last());
        assert(s.drop_last() =~= a + seq!['&'] + b.drop_last());
        lemma_split_append(a, b.drop_last());
        lemma_split_len(a);
        let r = spec_split_amp(s.drop_last());
        assert(r == spec_split_amp(a).push(b.drop_last()));
        assert(r.last() == b.drop_last());
        assert(b.drop_last().push(b.last()) =~= b);
        assert(r.update(r.len() - 1, r.last().push(s.last())) =~= spec_split_amp(a).push(b));
    }
}

/// Well-formed pairs: a key is never empty and neither side holds an
/// ampersand.
pub open spec fn spec_pairs_wf(pairs: Seq<(Seq<char>, Seq<char>)>) -> bool {
    forall|i: int|
        0 <= i < pairs.len() ==> {
            &&& (#[trigger] pairs[i]).0.len() > 0
            &&& !pairs[i].0.contains('&')
            &&& !pairs[i].1.contains('&')
        }
}

proof fn lemma_pairs_wf_push(pairs: Seq<(Seq<char>, Seq<char>)>, key: Seq<char>, v: Option<Seq<char>>)
    requires
        spec_pairs_wf(pairs),
        key.len() > 0,
        !key.contains('&'),
        v matches Some(s) ==> !s.contains('&'),
    ensures
        spec_pairs_wf(opt_push(pairs, key, v)),
{
    match v {
        Some(s) => {
            let np = pairs.push((key, s));
            assert forall|i: int| 0 <= i < np.len() implies {
                &&& (#[trigger] np[i]).0.len() > 0
                &&& !np[i].0.contains('&')
                &&& !np[i].1.contains('&')
            } by {
                if i < pairs.len() {
                    assert(np[i] == pairs[i]);
                } else {
                    assert(np[i] == (key, s));
                }
            }
        },
        None => {},
    }
}

proof fn lemma_pair_text_no_amp(k: Seq<char>, v: Seq<char>)
    requires
        !k.contains('&'),
        !v.contains('&'),
    ensures
        !spec_pair_text(k, v).contains('&'),
        spec_pair_text(k, v).len() > k.len(),
{
    reveal_strlit("=");
    assert("="@.len() == 1);
    let t = spec_pair_text(k, v);
    assert forall|i: int| 0 <= i < t.len() implies t[i] != '&' by {
        if i < k.len() {
            if k[i] == '&' {
                assert(k.contains('&'));
            }
            assert(t[i] == k[i]);
        } else if i == k.len() {
            assert(t[i] == '=');
        } else {
            if v[i - k.len() - 1] == '&' {
                assert(v.contains('&'));
            }
            assert(t[i] == v[i - k.len() - 1]);
        }
    }
    if t.contains('&') {
        let i = choose|i: int| 0 <= i < t.len() && t[i] == '&';
    }
}

/// One token per pair: splitting the rendered pairs on ampersands gives
/// exactly the key=value texts, in order.
proof fn lemma_render_tokens(pairs: Seq<(Seq<char>, Seq<char>)>)
    requires
        spec_pairs_wf(pairs),
        pairs.len() > 0,
    ensures
        spec_split_amp(spec_render_pairs(pairs)) == pairs.map_values(
            |pr: (Seq<char>, Seq<char>)| spec_pair_text(pr.0, pr.1),
        ),
    decreases pairs.len(),
{
    let toks = pairs.map_values(|pr: (Seq<char>, Seq<char>)| spec_pair_text(pr.0, pr.1));
    if pairs.len() == 1 {
        lemma_pair_text_no_amp(pairs[0].0, pairs[0].1);
        lemma_split_no_amp(spec_pair_text(pairs[0].0, pairs[0].1));
        assert(toks =~= seq![spec_pair_text(pairs[0].0, pairs[0].1)]);
    } else {
        let dl = pairs.drop_last();
        assert(spec_pairs_wf(dl)) by {
            assert(forall|i: int| 0 <= i < dl.len() ==> dl[i] == pairs[i]);
        }
        lemma_render_tokens(dl);
        lemma_pair_text_no_amp(pairs.last().0, pairs.last().1);
        reveal_strlit("&");
        assert("&"@ =~= seq!['&']);
        lemma_split_append(
            spec_render_pairs(dl),
            spec_pair_text(pairs.last().0, pairs.last().1),
        );
        assert(spec_render_pairs(pairs) == spec_render_pairs(dl) + seq!['&'] + spec_pair_text(
            pairs.last().0,
            pairs.last().1,
        ));
        assert(dl.map_values(|pr: (Seq<char>, Seq<char>)| spec_pair_text(pr.0, pr.1)).push(
            spec_pair_text(pairs.last().0, pairs.last().1),
        ) =~= toks);
    }
}

/// No set field's value holds an ampersand.
pub open spec fn spec_params_amp_free(p: ParamsModel) -> bool {
    &&& (p.content_types matches Some(s) ==> !s.contains('&'))
    &&& (p.presentation_types matches Some(s) ==> !s.contains('&'))
    &&& (p.providers matches Some(s) ==> !s.contains('&'))
    &&& (p.genres matches Some(s) ==> !s.contains('&'))
    &&& (p.languages matches Some(s) ==> !s.contains('&'))
    &&& (p.release_year_from matches Some(s) ==> !s.contains('&'))
    &&& (p.release_year_until matches Some(s) ==> !s.contains('&'))
    &&& (p.monetization_types matches Some(s) ==> !s.contains('&'))
    &&& (p.min_price matches Some(s) ==> !s.contains('&'))
    &&& (p.max_price matches Some(s) ==> !s.contains('&'))
    &&& (p.scoring_filter_types matches Some(s) ==> !s.contains('&'))
    &&& (p.cinema_release matches Some(s) ==> !s.contains('&'))
    &&& (p.query matches Some(s) ==> !s.contains('&'))
    &&& (p.page matches Some(s) ==> !s.contains('&'))
    &&& (p.page_size matches Some(s) ==> !s.contains('&'))
}

/// The query string tokenises exactly: nothing at all for no set field, and
/// otherwise, split on its ampersands, one key=value token per set field in
/// declaration order and not one token more -- so no ampersand leads, trails
/// or doubles, as every token is non-empty.
pub proof fn lemma_query_string_tokens(p: ParamsModel)
    requires
        spec_params_amp_free(p),
    ensures
        spec_params_pairs(p).len() == 0 ==> spec_render_pairs(spec_params_pairs(p))
            == Seq::<char>::empty(),
        spec_params_pairs(p).len() > 0 ==> spec_split_amp(spec_render_pairs(spec_params_pairs(p)))
            == spec_params_pairs(p).map_values(
            |pr: (Seq<char>, Seq<char>)| spec_pair_text(pr.0, pr.1),
        ),
        forall|i: int|
            0 <= i < spec_params_pairs(p).len() ==> (#[trigger] spec_params_pairs(p)[i]).0.len()
                > 0 && spec_pair_text(spec_params_pairs(p)[i].0, spec_params_pairs(p)[i].1).len()
                > 0,
{
    reveal_strlit("content_types");
    reveal_strlit("presentation_types");
    reveal_strlit("providers");
    reveal_strlit("genres");
    reveal_strlit("languages");
    reveal_strlit("release_year_from");
    reveal_strlit("release_year_until");
    reveal_strlit("monetization_types");
    reveal_strlit("min_price");
    reveal_strlit("max_price");
    reveal_strlit("scoring_filter_types");
    reveal_strlit("cinema_release");
    reveal_strlit("query");
    reveal_strlit("page");
    reveal_strlit("page_size");
    let s0: Seq<(Seq<char>, Seq<char>)> = Seq::empty();
    assert(spec_pairs_wf(s0));
    let s1 = opt_push(s0, "content_types"@, p.content_types);
    lemma_pairs_wf_push(s0, "content_types"@, p.content_types);
    let s2 = opt_push(s1, "presentation_types"@, p.presentation_types);
    lemma_pairs_wf_push(s1, "presentation_types"@, p.presentation_types);
    let s3 = opt_push(s2, "providers"@, p.providers);
    lemma_pairs_wf_push(s2, "providers"@, p.providers);
    let s4 = opt_push(s3, "genres"@, p.genres);
    lemma_pairs_wf_push(s3, "genres"@, p.genres);
    let s5 = opt_push(s4, "languages"@, p.languages);
    lemma_pairs_wf_push(s4, "languages"@, p.languages);
    let s6 = opt_push(s5, "release_year_from"@, p.release_year_from);
    lemma_pairs_wf_push(s5, "release_year_from"@, p.release_year_from);
    let s7 = opt_push(s6, "release_year_until"@, p.release_year_until);
    lemma_pairs_wf_push(s6, "release_year_until"@, p.release_year_until);
    let s8 = opt_push(s7, "monetization_types"@, p.monetization_types);
    lemma_pairs_wf_push(s7, "monetization_types"@, p.monetization_types);
    let s9 = opt_push(s8, "min_price"@, p.min_price);
    lemma_pairs_wf_push(s8, "min_price"@, p.min_price);
    let s10 = opt_push(s9, "max_price"@, p.max_price);
    lemma_pairs_wf_push(s9, "max_price"@, p.max_price);
    let s11 = opt_push(s10, "scoring_filter_types"@, p.scoring_filter_types);
    lemma_pairs_wf_push(s10, "scoring_filter_types"@, p.scoring_filter_types);
    let s12 = opt_push(s11, "cinema_release"@, p.cinema_release);
    lemma_pairs_wf_push(s11, "cinema_release"@, p.cinema_release);
    let s13 = opt_push(s12, "query"@, p.query);
    lemma_pairs_wf_push(s12, "query"@, p.query);
    let s14 = opt_push(s13, "page"@, p.page);
    lemma_pairs_wf_push(s13, "page"@, p.page);
    let s15 = opt_push(s14, "page_size"@, p.page_size);
    lemma_pairs_wf_push(s14, "page_size"@, p.page_size);
    assert(s15 == spec_params_pairs(p));
    if spec_params_pairs(p).len() > 0 {
        lemma_render_tokens(spec_params_pairs(p));
    }
    assert forall|i: int| 0 <= i < spec_params_pairs(p).len() implies (
    #[trigger] spec_params_pairs(p)[i]).0.len() > 0 && spec_pair_text(
        spec_params_pairs(p)[i].0,
        spec_params_pairs(p)[i].1,
    ).len() > 0 by {
        lemma_pair_text_no_amp(spec_params_pairs(p)[i].0, spec_params_pairs(p)[i].1);
    }
}

} // verus!
