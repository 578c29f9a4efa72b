use vstd::prelude::*;

verus! {

/// The composite's path: `{export_dir}/{month}-{image}.png`.
pub open spec fn output_path_of(export_dir: Seq<char>, month: Seq<char>, image: Seq<char>) -> Seq<
    char,
> {
    export_dir + seq!['/'] + month + seq!['-'] + image + seq!['.', 'p', 'n', 'g']
}

/// The output paths of a whole batch, one per pair, images in the outer
/// order and months in the inner one.
pub open spec fn batch_outputs(
    export_dir: Seq<char>,
    months: Seq<Seq<char>>,
    images: Seq<Seq<char>>,
) -> Seq<Seq<char>> {
    Seq::new(
        images.len() * months.len(),
        |k: int| output_path_of(export_dir, months[k % (months.len() as int)], images[k / (months.len() as int)]),
    )
}

/// The views of a list of names.
pub open spec fn names(v: Seq<String>) -> Seq<Seq<char>> {
    v.map_values(|s: String| s@)
}

/// Two output paths agree only for the same pair, as long as neither month
/// name holds the `-` that separates it from the image name.
pub proof fn lemma_output_path_injective(
    export_dir: Seq<char>,
    month1: Seq<char>,
    image1: Seq<char>,
    month2: Seq<char>,
    image2: Seq<char>,
)
    requires
        !month1.contains('-'),
        !month2.contains('-'),
        output_path_of(export_dir, month1, image1) == output_path_of(export_dir, month2, image2),
    ensures
        month1 == month2,
        image1 == image2,
{
    let p = output_path_of(export_dir, month1, image1);
    let start = export_dir.len() as int + 1;
    let l1 = month1.len() as int;
    let l2 = month2.len() as int;
    if l1 < l2 {
        assert(p[start + l1] == '-');
        assert(p[start + l1] == month2[l1]);
        assert(month2.contains('-'));
    } else if l2 < l1 {
        assert(p[start + l2] == '-');
        assert(p[start + l2] == month1[l2]);
        assert(month1.contains('-'));
    }
    assert(month1 =~= p.subrange(start, start + l1));
    assert(month2 =~= p.subrange(start, start + l2));
    assert(image1 =~= p.subrange(start + l1 + 1, p.len() - 4));
    assert(image2 =~= p.subrange(start + l2 + 1, p.len() - 4));
}

/// A batch over `M` distinct month names, none holding a `-`, and `N`
/// distinct image names has exactly `M * N` output paths, no two alike.
pub proof fn lemma_batch_outputs_unique(
    export_dir: Seq<char>,
    months: Seq<Seq<char>>,
    images: Seq<Seq<char>>,
)
    requires
        forall|a: int, b: int|
            0 <= a < b < months.len() ==> #[trigger] months[a] != #[trigger] months[b],
        forall|a: int, b: int|
            0 <= a < b < images.len() ==> #[trigger] images[a] != #[trigger] images[b],
        forall|a: int| 0 <= a < months.len() ==> !(#[trigger] months[a]).contains('-'),
    ensures
        batch_outputs(export_dir, months, images).len() == months.len() * images.len(),
        forall|k1: int, k2: int|
            0 <= k1 < k2 < batch_outputs(export_dir, months, images).len() ==> #[trigger] batch_outputs(
                export_dir,
                months,
                images,
            )[k1] != #[trigger] batch_outputs(export_dir, months, images)[k2],
{
    let out = batch_outputs(export_dir, months, images);
    let m = months.len() as int;
    assert(images.len() * months.len() == months.len() * images.len()) by (nonlinear_arith);
    assert forall|k1: int, k2: int| 0 <= k1 < k2 < out.len() implies #[trigger] out[k1] != #[trigger] out[k2] by {
        assert(m > 0) by (nonlinear_arith)
            requires k2 < images.len() * m, 0 <= k2, m >= 0;
        vstd::arithmetic::div_mod::lemma_fundamental_div_mod(k1, m);
        vstd::arithmetic::div_mod::lemma_fundamental_div_mod(k2, m);
        vstd::arithmetic::div_mod::lemma_mod_bound(k1, m);
        vstd::arithmetic::div_mod::lemma_mod_bound(k2, m);
        vstd::arithmetic::div_mod::lemma_div_pos_is_pos(k1, m);
        vstd::arithmetic::div_mod::lemma_div_pos_is_pos(k2, m);
        vstd::arithmetic::div_mod::lemma_div_is_ordered(k2, images.len() * m, m);
        vstd::arithmetic::div_mod::lemma_div_multiples_vanish(images.len() as int, m);
        vstd::arithmetic::div_mod::lemma_div_is_ordered(k1, k2, m);
        let (i1, j1) = (k1 / m, k1 % m);
        let (i2, j2) = (k2 / m, k2 % m);
        if out[k1] == out[k2] {
            lemma_output_path_injective(export_dir, months[j1], images[i1], months[j2], images[i2]);
            if j1 != j2 {
                if j1 < j2 {
                    assert(months[j1] != months[j2]);
                } else {
                    assert(months[j2] != months[j1]);
                }
            }
            if i1 != i2 {
                assert(images[i1] != images[i2]);
            }
            assert(k1 == i1 * m + j1);
            assert(k2 == i2 * m + j2);
        }
    }
}

/// `jobs` lists every (image, month) pair once, images in the outer order and
/// months in the inner one, each with its output path.
pub open spec fn is_plan(
    export_dir: Seq<char>,
    months: Seq<Seq<char>>,
    images: Seq<Seq<char>>,
    jobs: Seq<PairJob>,
) -> bool {
    &&& jobs.len() == images.len() * months.len()
    &&& forall|k: int|
        0 <= k < jobs.len() ==> {
            &&& (#[trigger] jobs[k]).month == k % (months.len() as int)
            &&& jobs[k].image == k / (months.len() as int)
            &&& jobs[k].output@ == batch_outputs(export_dir, months, images)[k]
        }
}

/// Planning the same batch twice gives the same pairs with the same output
/// paths, so a second run writes over the files of the first.
pub proof fn lemma_replan_same_paths(
    export_dir: Seq<char>,
    months: Seq<Seq<char>>,
    images: Seq<Seq<char>>,
    first: Seq<PairJob>,
    second: Seq<PairJob>,
)
    requires
        is_plan(export_dir, months, images, first),
        is_plan(export_dir, months, images, second),
    ensures
        first.len() == second.len(),
        forall|k: int|
            0 <= k < first.len() ==> {
                &&& (#[trigger] first[k]).month == second[k].month
                &&& first[k].image == second[k].image
                &&& first[k].output@ == second[k].output@
            },
{
}

/// Builds the path that the composite of `month` over `image` is written to.
pub fn output_path(export_dir: &str, month_stem: &str, image_stem: &str) -> (r: String)
    ensures
        r@ == output_path_of(export_dir@, month_stem@, image_stem@),
{
    let mut path = String::from_str(export_dir);
    path.append("/");
    path.append(month_stem);
    path.append("-");
    path.append(image_stem);
    path.append(".png");
    proof {
        reveal_strlit("/");
        reveal_strlit("-");
        reveal_strlit(".png");
    }
    assert(path@ =~= output_path_of(export_dir@, month_stem@, image_stem@));
    path
}

/// One pair of the batch: which month goes on top of which image, and where
/// the composite goes.
#[derive(Debug, Clone)]
pub struct PairJob {
    pub month: usize,
    pub image: usize,
    pub output: String,
}

/// Lists every (image, month) pair of the batch with its output path, images
/// in the outer order and months in the inner one.
pub fn plan_batch(export_dir: &str, month_stems: &Vec<String>, image_stems: &Vec<String>) -> (r: Vec<
    PairJob,
>)
    requires
        image_stems@.len() * month_stems@.len() <= usize::MAX,
    ensures
        is_plan(export_dir@, names(month_stems@), names(image_stems@), r@),
{
    let m = month_stems.len();
    let n = image_stems.len();
    let ghost months = names(month_stems@);
    let ghost images = names(image_stems@);
    let mut jobs: Vec<PairJob> = Vec::new();
    let mut i: usize = 0;
    while i < n
        invariant
            i <= n,
            n == image_stems@.len(),
            m == month_stems@.len(),
            n * m <= usize::MAX,
            months == names(month_stems@),
            images == names(image_stems@),
            jobs@.len() == i * m,
            forall|k: int|
                0 <= k < jobs@.len() ==> {
                    &&& (#[trigger] jobs@[k]).month == k % (m as int)
                    &&& jobs@[k].image == k / (m as int)
                    &&& jobs@[k].output@ == output_path_of(
                        export_dir@,
                        months[k % (m as int)],
                        images[k / (m as int)],
                    )
                },
        decreases n - i,
    {
        let mut j: usize = 0;
        while j < m
            invariant
                i < n,
                j <= m,
                n == image_stems@.len(),
                m == month_stems@.len(),
                n * m <= usize::MAX,
                months == names(month_stems@),
                images == names(image_stems@),
                jobs@.len() == i * m + j,
                forall|k: int|
                    0 <= k < jobs@.len() ==> {
                        &&& (#[trigger] jobs@[k]).month == k % (m as int)
                        &&& jobs@[k].image == k / (m as int)
                        &&& jobs@[k].output@ == output_path_of(
                            export_dir@,
                            months[k % (m as int)],
                            images[k / (m as int)],
                        )
                    },
            decreases m - j,
        {
            proof {
                assert(i * m + j < n * m) by (nonlinear_arith)
                    requires i < n, j < m;
                vstd::arithmetic::div_mod::lemma_fundamental_div_mod_converse(
                    (i * m + j) as int,
                    m as int,
                    i as int,
                    j as int,
                );
            }
            let output = output_path(export_dir, month_stems[j].as_str(), image_stems[i].as_str());
            jobs.push(PairJob { month: j, image: i, output });
            j += 1;
        }
        proof {
            assert(i * m + m == (i + 1) * m) by (nonlinear_arith);
        }
        i += 1;
    }
    jobs
}

} // verus!
