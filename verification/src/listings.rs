//! What the lists show of the tables: images, pending users and tag names.

use vstd::prelude::*;

use crate::accounts::PendingUser;
use crate::gallery::{
    favorite_mark, law_listed_tags_are_the_names, listed_tags, lists_row, ImageRecord, ImageRow,
};
use crate::model::{tagged, Tables};
use crate::store::Statement;
use crate::text::{joined, lemma_pieces_of_joined, pieces, views};

verus! {

/// Whether each element of a list comes before all those that follow it.
pub open spec fn in_order<A>(list: Seq<A>, before: spec_fn(A, A) -> bool) -> bool {
    forall|i: int, j: int| 0 <= i < j < list.len() ==> #[trigger] before(list[i], list[j])
}

/// Two lists in order that hold the same elements are the same list.
proof fn lemma_ordered_lists_agree<A>(a: Seq<A>, b: Seq<A>, before: spec_fn(A, A) -> bool)
    requires
        in_order(a, before),
        in_order(b, before),
        forall|x: A| #[trigger] a.contains(x) == b.contains(x),
        forall|x: A, y: A| #[trigger] before(x, y) ==> !before(y, x),
    ensures
        a == b,
    decreases a.len(),
{
    if a.len() == 0 {
        if b.len() > 0 {
            assert(b.contains(b[0]));
            assert(a.contains(b[0]));
        }
        assert(a =~= b);
    } else {
        assert(a.contains(a[0]));
        let j = choose|j: int| 0 <= j < b.len() && b[j] == a[0];
        assert(b.contains(b[0]));
        assert(a.contains(b[0]));
        let i = choose|i: int| 0 <= i < a.len() && a[i] == b[0];
        assert(a[0] == b[0]) by {
            if i > 0 && j > 0 {
                assert(before(a[0], a[i]));
                assert(before(b[0], b[j]));
            }
        }
        let ra = a.drop_first();
        let rb = b.drop_first();
        assert forall|k: int, l: int| 0 <= k < l < ra.len() implies #[trigger] before(
            ra[k],
            ra[l],
        ) by {
            assert(before(a[k + 1], a[l + 1]));
        }
        assert forall|k: int, l: int| 0 <= k < l < rb.len() implies #[trigger] before(
            rb[k],
            rb[l],
        ) by {
            assert(before(b[k + 1], b[l + 1]));
        }
        assert forall|x: A| #[trigger] ra.contains(x) == rb.contains(x) by {
            lemma_rest_of_ordered_list(a, x, before);
            lemma_rest_of_ordered_list(b, x, before);
            assert(a.contains(x) == b.contains(x));
        }
        lemma_ordered_lists_agree(ra, rb, before);
        assert(a =~= seq![a[0]] + ra);
        assert(b =~= seq![b[0]] + rb);
    }
}

proof fn lemma_rest_of_ordered_list<A>(list: Seq<A>, x: A, before: spec_fn(A, A) -> bool)
    requires
        list.len() > 0,
        in_order(list, before),
        forall|x: A, y: A| #[trigger] before(x, y) ==> !before(y, x),
    ensures
        list.drop_first().contains(x) == (list.contains(x) && x != list[0]),
{
    let rest = list.drop_first();
    if rest.contains(x) {
        let k = choose|k: int| 0 <= k < rest.len() && rest[k] == x;
        assert(list[k + 1] == x);
        assert(before(list[0], list[k + 1]));
    }
    if list.contains(x) && x != list[0] {
        let k = choose|k: int| 0 <= k < list.len() && list[k] == x;
        assert(rest[k - 1] == x);
    }
}

/// The order of ids in a list of images: the newest comes first.
pub open spec fn newer() -> spec_fn(i64, i64) -> bool {
    |a: i64, b: i64| a > b
}

/// The ids of a list of images.
pub open spec fn ids(records: Seq<ImageRecord>) -> Seq<i64> {
    records.map_values(|record: ImageRecord| record.id)
}

/// The ids of the rows that a listing returns.
pub open spec fn row_ids(rows: Seq<ImageRow>) -> Seq<i64> {
    rows.map_values(|row: ImageRow| row.id)
}

impl Tables {
    /// Whether `names` are the names of the tags on the image, each once, in some order.
    pub open spec fn enumerates_tags(self, image_id: i64, names: Seq<Seq<char>>) -> bool {
        &&& names.no_duplicates()
        &&& forall|name: Seq<char>| #[trigger]
            names.contains(name) == self.is_tagged(image_id, name)
    }

    /// Whether `tags` holds the names of the tags on the image with commas between them.
    pub open spec fn concatenates_tags(self, image_id: i64, tags: Seq<char>) -> bool {
        exists|names: Seq<Seq<char>>| #[trigger]
            self.enumerates_tags(image_id, names) && tags == joined(names, ',')
    }

    /// Whether the store may answer a listing with that row.
    pub open spec fn answers_row(self, listing: Statement<Seq<char>>, row: ImageRow) -> bool {
        &&& row.file_path@ == self.images[row.id].file_path
        &&& favorite_mark(row.favorited_bool, row.favorited_number) == self.marks(listing, row.id)
        &&& self.concatenates_tags(row.id, row.tags@)
    }

    /// Whether the store may answer a listing with those rows: one for each image that the listing
    /// holds, the newest first.
    pub open spec fn answers_listing(
        self,
        listing: Statement<Seq<char>>,
        rows: Seq<ImageRow>,
    ) -> bool {
        &&& in_order(row_ids(rows), newer())
        &&& forall|id: i64| #[trigger] row_ids(rows).contains(id) == self.lists(listing, id)
        &&& forall|i: int| 0 <= i < rows.len() ==> self.answers_row(listing, #[trigger] rows[i])
    }

    /// Whether a record shows its image as the listing does: its path, its mark, and what the names
    /// of its tags come to when they are listed.
    pub open spec fn shows_image(
        self,
        listing: Statement<Seq<char>>,
        record: ImageRecord,
    ) -> bool {
        &&& record.file_path@ == self.images[record.id].file_path
        &&& record.is_favorited == self.marks(listing, record.id)
        &&& exists|names: Seq<Seq<char>>| #[trigger]
            self.enumerates_tags(record.id, names) && views(record.tags@) == listed_tags(
                joined(names, ','),
            )
    }

    /// Whether the records show the images that the listing holds, each once and the newest first.
    pub open spec fn shows(
        self,
        listing: Statement<Seq<char>>,
        records: Seq<ImageRecord>,
    ) -> bool {
        &&& in_order(ids(records), newer())
        &&& forall|id: i64| #[trigger] ids(records).contains(id) == self.lists(listing, id)
        &&& forall|i: int|
            0 <= i < records.len() ==> self.shows_image(listing, #[trigger] records[i])
    }

    /// Whether the store may answer with those pending users: each once, with their name.
    pub open spec fn answers_pending(self, users: Seq<PendingUser>) -> bool {
        &&& user_ids(users).no_duplicates()
        &&& forall|id: i64| #[trigger] user_ids(users).contains(id) == self.is_pending(id)
        &&& forall|i: int|
            0 <= i < users.len() ==> (#[trigger] users[i]).username@
                == self.users[users[i].id].username
    }

    /// Whether the store may answer with those tag names: all there are, in ascending order.
    pub open spec fn answers_tag_names(self, names: Seq<Seq<char>>) -> bool {
        &&& in_order(names, |a: Seq<char>, b: Seq<char>| precedes(a, b))
        &&& forall|name: Seq<char>| #[trigger] names.contains(name) == self.has_tag_named(name)
    }
}

/// The ids of a list of users.
pub open spec fn user_ids(users: Seq<PendingUser>) -> Seq<i64> {
    users.map_values(|user: PendingUser| user.id)
}

/// Whether one text comes before another: at the first place where they differ it has the smaller
/// character, or it ends there.
pub open spec fn precedes(a: Seq<char>, b: Seq<char>) -> bool
    decreases a.len(),
{
    if b.len() == 0 {
        false
    } else if a.len() == 0 {
        true
    } else if a[0] != b[0] {
        a[0] < b[0]
    } else {
        precedes(a.drop_first(), b.drop_first())
    }
}

proof fn lemma_precedes_one_way(a: Seq<char>, b: Seq<char>)
    requires
        precedes(a, b),
    ensures
        !precedes(b, a),
    decreases a.len(),
{
    if a.len() > 0 && a[0] == b[0] {
        lemma_precedes_one_way(a.drop_first(), b.drop_first());
    }
}

/// The records made of the rows that the store answered show the listing.
pub proof fn law_records_show_listing(
    tables: Tables,
    listing: Statement<Seq<char>>,
    rows: Seq<ImageRow>,
    records: Seq<ImageRecord>,
)
    requires
        tables.answers_listing(listing, rows),
        records.len() == rows.len(),
        forall|i: int| 0 <= i < rows.len() ==> lists_row(#[trigger] records[i], rows[i]),
    ensures
        tables.shows(listing, records),
{
    assert(ids(records) =~= row_ids(rows)) by {
        assert forall|i: int| 0 <= i < rows.len() implies ids(records)[i] == row_ids(rows)[i] by {
            assert(lists_row(records[i], rows[i]));
        }
    }
    assert forall|id: i64| #[trigger] ids(records).contains(id) == tables.lists(listing, id) by {
        assert(row_ids(rows).contains(id) == tables.lists(listing, id));
    }
    assert forall|i: int| 0 <= i < records.len() implies tables.shows_image(
        listing,
        #[trigger] records[i],
    ) by {
        assert(lists_row(records[i], rows[i]));
        assert(tables.answers_row(listing, rows[i]));
        let names = choose|names: Seq<Seq<char>>| #[trigger]
            tables.enumerates_tags(rows[i].id, names) && rows[i].tags@ == joined(names, ',');
        assert(tables.enumerates_tags(records[i].id, names));
    }
}

/// Where no name on an image is empty or holds a comma, its record lists exactly the names of its
/// tags, each once.
pub proof fn law_tags_are_shown_once(
    tables: Tables,
    listing: Statement<Seq<char>>,
    record: ImageRecord,
)
    requires
        tables.shows_image(listing, record),
        forall|name: Seq<char>| #[trigger]
            tables.is_tagged(record.id, name) ==> name.len() > 0 && !name.contains(','),
    ensures
        tables.enumerates_tags(record.id, views(record.tags@)),
{
    let names = choose|names: Seq<Seq<char>>| #[trigger]
        tables.enumerates_tags(record.id, names) && views(record.tags@) == listed_tags(
            joined(names, ','),
        );
    assert forall|i: int| 0 <= i < names.len() implies (#[trigger] names[i]).len() > 0
        && !names[i].contains(',') by {
        assert(names.contains(names[i]));
        assert(tables.is_tagged(record.id, names[i]));
    }
    law_listed_tags_are_the_names(names);
}

proof fn lemma_listed_tags_ignore_order(a: Seq<Seq<char>>, b: Seq<Seq<char>>, tag: Seq<char>)
    requires
        a.no_duplicates(),
        b.no_duplicates(),
        forall|name: Seq<char>| #[trigger] a.contains(name) == b.contains(name),
        listed_tags(joined(a, ',')).contains(tag),
    ensures
        listed_tags(joined(b, ',')).contains(tag),
{
    assert(a.len() > 0);
    lemma_pieces_of_joined(a, ',', tag);
    let i = choose|i: int| 0 <= i < a.len() && #[trigger] pieces(a[i], ',').contains(tag);
    assert(a.contains(a[i]));
    assert(b.contains(a[i]));
    let j = choose|j: int| 0 <= j < b.len() && b[j] == a[i];
    assert(pieces(b[j], ',').contains(tag));
    lemma_pieces_of_joined(b, ',', tag);
    if joined(b, ',').len() == 0 {
        assert(b.len() == 1);
        assert forall|k: int| 0 <= k < a.len() implies a[k] == b[0] by {
            assert(a.contains(a[k]));
            assert(b.contains(a[k]));
        }
        if a.len() > 1 {
            assert(a[0] == a[1]);
        }
        assert(joined(a, ',') == joined(b, ','));
    }
}

/// Whether two records show the same image in everything but the favorite mark; the tags may stand
/// in another order.
pub open spec fn same_image(a: ImageRecord, b: ImageRecord) -> bool {
    &&& a.id == b.id
    &&& a.file_path@ == b.file_path@
    &&& forall|tag: Seq<char>| #[trigger]
        views(a.tags@).contains(tag) == views(b.tags@).contains(tag)
}

proof fn lemma_records_agree(
    tables: Tables,
    listing: Statement<Seq<char>>,
    record: ImageRecord,
    other_listing: Statement<Seq<char>>,
    other: ImageRecord,
)
    requires
        tables.shows_image(listing, record),
        tables.shows_image(other_listing, other),
        record.id == other.id,
    ensures
        same_image(record, other),
{
    let names = choose|names: Seq<Seq<char>>| #[trigger]
        tables.enumerates_tags(record.id, names) && views(record.tags@) == listed_tags(
            joined(names, ','),
        );
    let others = choose|names: Seq<Seq<char>>| #[trigger]
        tables.enumerates_tags(other.id, names) && views(other.tags@) == listed_tags(
            joined(names, ','),
        );
    assert forall|name: Seq<char>| #[trigger] names.contains(name) == others.contains(name) by {
        assert(names.contains(name) == tables.is_tagged(record.id, name));
        assert(others.contains(name) == tables.is_tagged(record.id, name));
    }
    assert forall|name: Seq<char>| #[trigger] others.contains(name) == names.contains(name) by {
        assert(names.contains(name) == others.contains(name));
    }
    assert forall|tag: Seq<char>| #[trigger]
        views(record.tags@).contains(tag) == views(other.tags@).contains(tag) by {
        if views(record.tags@).contains(tag) {
            lemma_listed_tags_ignore_order(names, others, tag);
        }
        if views(other.tags@).contains(tag) {
            lemma_listed_tags_ignore_order(others, names, tag);
        }
    }
}

/// The listing of all images as it is asked for by somebody who is authenticated, or not.
pub open spec fn all_images(viewer: Option<i64>, tag: Seq<char>) -> Statement<Seq<char>> {
    match viewer {
        Some(user_id) => Statement::AllImagesFor { user_id, tag },
        None => Statement::AllImages { tag },
    }
}

/// Whoever asks gets the same list of all images, in the same order; only the marks differ, and
/// they are one's own favorites: none for who is not authenticated.
pub proof fn law_everybody_sees_the_same_images(
    tables: Tables,
    tag: Seq<char>,
    viewer: Option<i64>,
    records: Seq<ImageRecord>,
    other_viewer: Option<i64>,
    others: Seq<ImageRecord>,
)
    requires
        tables.shows(all_images(viewer, tag), records),
        tables.shows(all_images(other_viewer, tag), others),
    ensures
        records.len() == others.len(),
        forall|i: int|
            0 <= i < records.len() ==> same_image(#[trigger] records[i], #[trigger] others[i]),
        forall|i: int|
            0 <= i < records.len() ==> (#[trigger] records[i]).is_favorited == (viewer is Some
                && tables.favorites.contains((viewer->Some_0, records[i].id))),
{
    let listing = all_images(viewer, tag);
    let other_listing = all_images(other_viewer, tag);
    assert forall|id: i64| #[trigger] ids(records).contains(id) == ids(others).contains(id) by {
        assert(ids(others).contains(id) == tables.lists(other_listing, id));
    }
    lemma_ordered_lists_agree(ids(records), ids(others), newer());
    assert(ids(records).len() == records.len() && ids(others).len() == others.len());
    assert forall|i: int| 0 <= i < records.len() implies same_image(
        #[trigger] records[i],
        #[trigger] others[i],
    ) by {
        assert(ids(records)[i] == records[i].id);
        assert(ids(others)[i] == others[i].id);
        lemma_records_agree(tables, listing, records[i], other_listing, others[i]);
    }
}

/// The ids of the records that are kept are in the order of the whole list.
proof fn lemma_ids_of_kept(
    records: Seq<ImageRecord>,
    kept: spec_fn(ImageRecord) -> bool,
)
    requires
        in_order(ids(records), newer()),
    ensures
        in_order(ids(records.filter(kept)), newer()),
        forall|id: i64| #[trigger]
            ids(records.filter(kept)).contains(id) == is_kept(records, kept, id),
    decreases records.len(),
{
    reveal(Seq::filter);
    if records.len() == 0 {
        assert(ids(records.filter(kept)).len() == 0);
    } else {
        let front = records.drop_last();
        let last = records.last();
        assert(ids(records).drop_last() =~= ids(front));
        assert forall|i: int, j: int| 0 <= i < j < ids(front).len() implies #[trigger] newer()(
            ids(front)[i],
            ids(front)[j],
        ) by {
            assert(newer()(ids(records)[i], ids(records)[j]));
        }
        lemma_ids_of_kept(front, kept);
        let shorter = ids(front.filter(kept));
        let whole = ids(records.filter(kept));
        if kept(last) {
            assert(whole =~= shorter.push(last.id));
            assert forall|i: int, j: int| 0 <= i < j < whole.len() implies #[trigger] newer()(
                whole[i],
                whole[j],
            ) by {
                if j < shorter.len() {
                    assert(newer()(shorter[i], shorter[j]));
                } else {
                    assert(shorter.contains(shorter[i]));
                    assert(is_kept(front, kept, shorter[i]));
                    let k = choose|k: int|
                        0 <= k < front.len() && (#[trigger] front[k]).id == shorter[i] && kept(
                            front[k],
                        );
                    assert(newer()(ids(records)[k], ids(records)[records.len() - 1]));
                }
            }
        } else {
            assert(whole =~= shorter);
        }
        assert forall|id: i64| #[trigger] whole.contains(id) == is_kept(records, kept, id) by {
            assert(shorter.contains(id) == is_kept(front, kept, id));
            if is_kept(front, kept, id) {
                let k = choose|k: int|
                    0 <= k < front.len() && (#[trigger] front[k]).id == id && kept(front[k]);
                assert(records[k].id == id && kept(records[k]));
                let m = choose|m: int| 0 <= m < shorter.len() && shorter[m] == id;
                assert(whole[m] == id);
            }
            if is_kept(records, kept, id) {
                let k = choose|k: int|
                    0 <= k < records.len() && (#[trigger] records[k]).id == id && kept(records[k]);
                if k < front.len() {
                    assert(front[k].id == id && kept(front[k]));
                } else {
                    assert(whole[whole.len() - 1] == id);
                }
            }
            if whole.contains(id) && !shorter.contains(id) {
                let m = choose|m: int| 0 <= m < whole.len() && whole[m] == id;
                assert(kept(last));
                assert(m == shorter.len());
                assert(records[records.len() - 1].id == id);
            }
        }
    }
}

/// Whether a record with that id is kept.
pub open spec fn is_kept(
    records: Seq<ImageRecord>,
    kept: spec_fn(ImageRecord) -> bool,
    id: i64,
) -> bool {
    exists|k: int| 0 <= k < records.len() && (#[trigger] records[k]).id == id && kept(records[k])
}

/// Whether `part` shows the images of `whole` that are kept, in the same order and with the same
/// marks.
pub open spec fn is_part_of(
    part: Seq<ImageRecord>,
    whole: Seq<ImageRecord>,
    kept: spec_fn(ImageRecord) -> bool,
) -> bool {
    &&& part.len() == whole.filter(kept).len()
    &&& forall|i: int|
        0 <= i < part.len() ==> same_image(#[trigger] part[i], whole.filter(kept)[i])
            && part[i].is_favorited == whole.filter(kept)[i].is_favorited
}

proof fn lemma_kept_record(
    records: Seq<ImageRecord>,
    kept: spec_fn(ImageRecord) -> bool,
    i: int,
) -> (k: int)
    requires
        0 <= i < records.filter(kept).len(),
    ensures
        0 <= k < records.len(),
        records[k] == records.filter(kept)[i],
        kept(records[k]),
    decreases records.len(),
{
    reveal(Seq::filter);
    let front = records.drop_last();
    if i < front.filter(kept).len() {
        lemma_kept_record(front, kept, i)
    } else {
        records.len() - 1
    }
}

proof fn lemma_part_of_all(
    tables: Tables,
    listing: Statement<Seq<char>>,
    part: Seq<ImageRecord>,
    whole_listing: Statement<Seq<char>>,
    whole: Seq<ImageRecord>,
    kept: spec_fn(ImageRecord) -> bool,
)
    requires
        tables.shows(listing, part),
        tables.shows(whole_listing, whole),
        forall|id: i64| #[trigger] tables.lists(listing, id) == is_kept(whole, kept, id),
        forall|id: i64| #[trigger]
            tables.lists(listing, id) ==> tables.marks(listing, id) == tables.marks(
                whole_listing,
                id,
            ),
    ensures
        is_part_of(part, whole, kept),
{
    lemma_ids_of_kept(whole, kept);
    let rest = whole.filter(kept);
    assert forall|id: i64| #[trigger] ids(part).contains(id) == ids(rest).contains(id) by {
        assert(ids(part).contains(id) == tables.lists(listing, id));
        assert(ids(rest).contains(id) == is_kept(whole, kept, id));
    }
    lemma_ordered_lists_agree(ids(part), ids(rest), newer());
    assert(ids(part).len() == part.len() && ids(rest).len() == rest.len());
    assert forall|i: int| 0 <= i < part.len() implies same_image(#[trigger] part[i], rest[i])
        && part[i].is_favorited == rest[i].is_favorited by {
        let k = lemma_kept_record(whole, kept, i);
        assert(ids(part)[i] == part[i].id);
        assert(ids(rest)[i] == rest[i].id);
        assert(tables.shows_image(whole_listing, whole[k]));
        assert(tables.shows_image(listing, part[i]));
        lemma_records_agree(tables, listing, part[i], whole_listing, rest[i]);
        assert(ids(part).contains(part[i].id));
        assert(tables.lists(listing, part[i].id));
    }
}

/// The list of one's own images is the list of all images cut down to those one owns: the same
/// records in the same order.
pub proof fn law_own_list_is_cut_from_all(
    tables: Tables,
    user_id: i64,
    tag: Seq<char>,
    own: Seq<ImageRecord>,
    all: Seq<ImageRecord>,
)
    requires
        tables.shows(Statement::UserImages { user_id, tag }, own),
        tables.shows(Statement::AllImagesFor { user_id, tag }, all),
    ensures
        is_part_of(
            own,
            all,
            |record: ImageRecord| tables.images[record.id].owner == user_id,
        ),
{
    let kept = |record: ImageRecord| tables.images[record.id].owner == user_id;
    let listing = Statement::UserImages { user_id, tag };
    let whole = Statement::AllImagesFor { user_id, tag };
    lemma_lists_what_is_kept(tables, listing, whole, all, kept, |id: i64|
        tables.images[id].owner == user_id);
    lemma_part_of_all(tables, listing, own, whole, all, kept);
}

proof fn lemma_lists_what_is_kept(
    tables: Tables,
    listing: Statement<Seq<char>>,
    whole_listing: Statement<Seq<char>>,
    whole: Seq<ImageRecord>,
    kept: spec_fn(ImageRecord) -> bool,
    kept_id: spec_fn(i64) -> bool,
)
    requires
        tables.shows(whole_listing, whole),
        forall|id: i64| #[trigger]
            tables.lists(listing, id) == (tables.lists(whole_listing, id) && kept_id(id)),
        forall|k: int|
            0 <= k < whole.len() ==> kept(#[trigger] whole[k]) == kept_id(whole[k].id),
    ensures
        forall|id: i64| #[trigger] tables.lists(listing, id) == is_kept(whole, kept, id),
{
    assert forall|id: i64| #[trigger] tables.lists(listing, id) == is_kept(whole, kept, id) by {
        assert(ids(whole).contains(id) == tables.lists(whole_listing, id));
        if tables.lists(listing, id) {
            let k = choose|k: int| 0 <= k < ids(whole).len() && ids(whole)[k] == id;
            assert(whole[k].id == id && kept(whole[k]));
        }
        if is_kept(whole, kept, id) {
            let k = choose|k: int|
                0 <= k < whole.len() && (#[trigger] whole[k]).id == id && kept(whole[k]);
            assert(ids(whole)[k] == id);
        }
    }
}

/// The list of one's favorites is the list of all images cut down to those that are marked in it:
/// the same records in the same order, every one of them marked.
pub proof fn law_favorites_are_the_marked_images(
    tables: Tables,
    user_id: i64,
    favorites: Seq<ImageRecord>,
    all: Seq<ImageRecord>,
)
    requires
        tables.shows(Statement::<Seq<char>>::FavoriteImages { user_id }, favorites),
        tables.shows(Statement::AllImagesFor { user_id, tag: Seq::empty() }, all),
    ensures
        is_part_of(favorites, all, |record: ImageRecord| record.is_favorited),
        forall|i: int| 0 <= i < favorites.len() ==> (#[trigger] favorites[i]).is_favorited,
{
    let kept = |record: ImageRecord| record.is_favorited;
    let listing = Statement::<Seq<char>>::FavoriteImages { user_id };
    let whole = Statement::AllImagesFor { user_id, tag: Seq::empty() };
    assert forall|k: int| 0 <= k < all.len() implies kept(#[trigger] all[k])
        == tables.favorites.contains((user_id, all[k].id)) by {
        assert(tables.shows_image(whole, all[k]));
    }
    lemma_lists_what_is_kept(tables, listing, whole, all, kept, |id: i64|
        tables.favorites.contains((user_id, id)));
    lemma_part_of_all(tables, listing, favorites, whole, all, kept);
    assert forall|i: int| 0 <= i < favorites.len() implies (
    #[trigger] favorites[i]).is_favorited by {
        assert(tables.shows_image(listing, favorites[i]));
    }
}

/// Approval takes exactly the approved user off the list of pending users, which holds every
/// pending user once.
pub proof fn law_approval_takes_user_off_the_list(
    tables: Tables,
    user_id: i64,
    before: Seq<PendingUser>,
    after: Seq<PendingUser>,
)
    requires
        tables.users.contains_key(user_id),
        tables.answers_pending(before),
        (Statement::<Seq<char>>::ApproveUser { user_id }).effect(tables, 0).answers_pending(after),
    ensures
        user_ids(before).no_duplicates(),
        user_ids(after).no_duplicates(),
        forall|id: i64| #[trigger]
            user_ids(after).contains(id) == (user_ids(before).contains(id) && id != user_id),
        forall|i: int, j: int|
            0 <= i < after.len() && 0 <= j < before.len() && (#[trigger] after[i]).id == (
            #[trigger] before[j]).id ==> after[i].username@ == before[j].username@,
{
    let approved = (Statement::<Seq<char>>::ApproveUser { user_id }).effect(tables, 0);
    assert forall|id: i64| #[trigger] user_ids(after).contains(id) == (user_ids(before).contains(id)
        && id != user_id) by {
        assert(user_ids(after).contains(id) == approved.is_pending(id));
        assert(user_ids(before).contains(id) == tables.is_pending(id));
    }
}

/// The tables fix the list of tag names: it holds each name once, and any two answers are the same
/// list.
pub proof fn law_tag_list_is_fixed(
    tables: Tables,
    names: Seq<Seq<char>>,
    others: Seq<Seq<char>>,
)
    requires
        tables.answers_tag_names(names),
        tables.answers_tag_names(others),
    ensures
        names.no_duplicates(),
        names == others,
{
    let before = |a: Seq<char>, b: Seq<char>| precedes(a, b);
    assert forall|a: Seq<char>, b: Seq<char>| #[trigger] before(a, b) implies !before(b, a) by {
        lemma_precedes_one_way(a, b);
    }
    assert forall|i: int, j: int|
        0 <= i < names.len() && 0 <= j < names.len() && i != j implies names[i] != names[j] by {
        if i < j {
            assert(before(names[i], names[j]));
        } else {
            assert(before(names[j], names[i]));
        }
    }
    assert forall|name: Seq<char>| #[trigger] names.contains(name) == others.contains(name) by {
        assert(others.contains(name) == tables.has_tag_named(name));
    }
    lemma_ordered_lists_agree(names, others, before);
}

/// A tag that has been added is in the list of tag names, and taking it off an image leaves that
/// list as it is.
pub proof fn law_tag_list_keeps_names(
    tables: Tables,
    key: i64,
    image_id: i64,
    name: Seq<char>,
    tag_id: i64,
    names: Seq<Seq<char>>,
    later: Seq<Seq<char>>,
)
    requires
        (Statement::AddTag { name }).effect(tables, key).names_tag(tag_id, name),
        tagged(tables, key, image_id, name, tag_id).answers_tag_names(names),
        (Statement::UnlinkTag { image_id, name }).effect(
            tagged(tables, key, image_id, name, tag_id),
            0,
        ).answers_tag_names(later),
    ensures
        names.contains(name),
        later == names,
{
    let added = tagged(tables, key, image_id, name, tag_id);
    let removed = (Statement::UnlinkTag { image_id, name }).effect(added, 0);
    assert(added.names_tag(tag_id, name));
    assert(added.has_tag_named(name));
    assert forall|other: Seq<char>| #[trigger]
        later.contains(other) == added.has_tag_named(other) by {
        assert(later.contains(other) == removed.has_tag_named(other));
        if removed.has_tag_named(other) {
            let id = choose|id: i64| removed.names_tag(id, other);
            assert(added.names_tag(id, other));
        }
        if added.has_tag_named(other) {
            let id = choose|id: i64| added.names_tag(id, other);
            assert(removed.names_tag(id, other));
        }
    }
    law_tag_list_is_fixed(added, later, names);
}

} // verus!
