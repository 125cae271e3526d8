//! Distribution of files over the partitions of a scan.

use vstd::prelude::*;

verus! {

/// `items` cut into consecutive runs of `size`, the last of which may be shorter.
pub open spec fn chunks<T>(items: Seq<T>, size: nat) -> Seq<Seq<T>>
    decreases items.len(),
{
    if items.len() == 0 || size == 0 {
        Seq::empty()
    } else if items.len() <= size {
        seq![items]
    } else {
        seq![items.take(size as int)] + chunks(items.skip(size as int), size)
    }
}

/// The least run length for which `count` items fill at most `n` runs.
pub open spec fn chunk_size(count: nat, n: nat) -> nat {
    if count == 0 || n == 0 {
        0
    } else {
        ((count - 1) / n as int + 1) as nat
    }
}

/// The groups over which `files` are distributed when at most `n` are wanted.
pub open spec fn file_groups<T>(files: Seq<T>, n: nat) -> Seq<Seq<T>> {
    chunks(files, chunk_size(files.len(), n))
}

/// The contents of each of `groups`.
pub open spec fn groups_view<T>(groups: Seq<Vec<T>>) -> Seq<Seq<T>> {
    groups.map_values(|group: Vec<T>| group@)
}

/// Distributes `partitioned_files` over at most `n` groups of consecutive files, of equal length
/// but for the last. No files give no groups.
pub fn split_files<T>(partitioned_files: Vec<T>, n: usize) -> (groups: Vec<Vec<T>>)
    requires
        partitioned_files@.len() > 0 ==> n > 0,
    ensures
        groups_view(groups@) == file_groups(partitioned_files@, n as nat),
{
    let mut groups: Vec<Vec<T>> = Vec::new();
    if partitioned_files.len() == 0 {
        assert(groups_view(groups@) =~= file_groups(partitioned_files@, n as nat));
        return groups;
    }
    let size: usize = (partitioned_files.len() - 1) / n + 1;
    let ghost all = partitioned_files@;
    let mut rest = partitioned_files;
    assert(groups_view(groups@) + chunks(rest@, size as nat) =~= chunks(all, size as nat));
    while rest.len() > size
        invariant
            0 < size,
            0 < rest@.len(),
            groups_view(groups@) + chunks(rest@, size as nat) == chunks(all, size as nat),
        decreases rest@.len(),
    {
        let ghost before = rest@;
        let ghost done = groups_view(groups@);
        let tail = rest.split_off(size);
        let head = rest;
        rest = tail;
        groups.push(head);
        proof {
            assert(head@ =~= before.take(size as int));
            assert(rest@ =~= before.skip(size as int));
            assert(groups_view(groups@) =~= done.push(before.take(size as int)));
            assert(groups_view(groups@) + chunks(rest@, size as nat) =~= done + chunks(before, size as nat));
        }
    }
    let ghost done = groups_view(groups@);
    let ghost last = rest@;
    groups.push(rest);
    assert(groups_view(groups@) =~= done + seq![last]);
    groups
}

/// What runs of `size` are: together they are the items in order; each has `size` items but the last,
/// which has at least one and at most `size`.
proof fn lemma_chunks<T>(items: Seq<T>, size: nat)
    requires
        size > 0,
    ensures
        chunks(items, size).flatten() == items,
        forall|i: int|
            0 <= i < chunks(items, size).len() ==> 0 < (#[trigger] chunks(items, size)[i]).len()
                <= size,
        forall|i: int|
            0 <= i < chunks(items, size).len() - 1 ==> (#[trigger] chunks(items, size)[i]).len()
                == size,
        chunks(items, size).len() * size >= items.len(),
        items.len() > 0 ==> (chunks(items, size).len() - 1) * size < items.len(),
        items.len() == 0 <==> chunks(items, size).len() == 0,
    decreases items.len(),
{
    let all = chunks(items, size);
    if items.len() == 0 {
    } else if items.len() <= size {
        all.lemma_flatten_one_element();
        assert((all.len() - 1) * size == 0) by (nonlinear_arith)
            requires
                all.len() == 1,
        ;
    } else {
        let head = items.take(size as int);
        let tail = items.skip(size as int);
        let rest = chunks(tail, size);
        lemma_chunks(tail, size);
        assert(all =~= seq![head] + rest);
        assert(all.drop_first() =~= rest);
        assert(all.first() == head);
        assert(head + tail =~= items);
        assert forall|i: int| 0 <= i < all.len() implies 0 < (#[trigger] all[i]).len() <= size by {
            if i > 0 {
                assert(all[i] == rest[i - 1]);
            }
        }
        assert forall|i: int| 0 <= i < all.len() - 1 implies (#[trigger] all[i]).len() == size by {
            if i > 0 {
                assert(all[i] == rest[i - 1]);
            }
        }
        assert(all.len() * size == rest.len() * size + size) by (nonlinear_arith)
            requires
                all.len() == rest.len() + 1,
        ;
        assert((all.len() - 1) * size == (rest.len() - 1) * size + size) by (nonlinear_arith)
            requires
                all.len() == rest.len() + 1,
        ;
    }
}

/// The groups together are the files, each file once and in the order of the list.
pub proof fn groups_together_are_the_files<T>(files: Seq<T>, n: nat)
    requires
        files.len() > 0 ==> n > 0,
    ensures
        file_groups(files, n).flatten() == files,
{
    if files.len() > 0 {
        lemma_chunks(files, chunk_size(files.len(), n));
    } else {
        assert(file_groups(files, n).flatten() =~= files);
    }
}

/// There are no more groups than wanted and no more than files, none of them is empty, and there are
/// none if and only if there are no files.
pub proof fn groups_are_within_the_limit<T>(files: Seq<T>, n: nat)
    requires
        files.len() > 0 ==> n > 0,
    ensures
        file_groups(files, n).len() <= n,
        file_groups(files, n).len() <= files.len(),
        file_groups(files, n).len() == 0 <==> files.len() == 0,
        forall|i: int|
            0 <= i < file_groups(files, n).len() ==> (#[trigger] file_groups(files, n)[i]).len()
                > 0,
{
    if files.len() > 0 {
        let count = files.len() as int;
        let size = chunk_size(files.len(), n);
        let groups = file_groups(files, n).len() as int;
        lemma_chunks(files, size);
        assert(size * n >= count && size >= 1) by (nonlinear_arith)
            requires
                size == (count - 1) / (n as int) + 1,
                n > 0,
                count > 0,
        ;
        assert(groups <= n) by (nonlinear_arith)
            requires
                (groups - 1) * size < count,
                count <= size * n,
                size >= 1,
        ;
        assert(groups <= count) by (nonlinear_arith)
            requires
                (groups - 1) * size < count,
                size >= 1,
                count > 0,
        ;
    }
}

/// The groups are of one length but for the last, which may be shorter.
pub proof fn groups_are_even<T>(files: Seq<T>, n: nat)
    requires
        files.len() > 0 ==> n > 0,
    ensures
        forall|i: int|
            0 <= i < file_groups(files, n).len() - 1 ==> (#[trigger] file_groups(files, n)[i]).len()
                == chunk_size(files.len(), n),
        file_groups(files, n).len() > 0 ==> file_groups(files, n).last().len() <= chunk_size(
            files.len(),
            n,
        ),
{
    if files.len() > 0 {
        lemma_chunks(files, chunk_size(files.len(), n));
    }
}

/// With at least as many groups wanted as there are files, each file is a group of its own.
pub proof fn enough_groups_hold_a_file_each<T>(files: Seq<T>, n: nat)
    requires
        n >= files.len(),
    ensures
        file_groups(files, n) == files.map_values(|file: T| seq![file]),
{
    if files.len() > 0 {
        assert((files.len() - 1) / (n as int) == 0) by (nonlinear_arith)
            requires
                0 < files.len() <= n,
        ;
        lemma_unit_chunks(files);
    }
    assert(file_groups(files, n) =~= files.map_values(|file: T| seq![file]));
}

proof fn lemma_unit_chunks<T>(items: Seq<T>)
    ensures
        chunks(items, 1) == items.map_values(|item: T| seq![item]),
    decreases items.len(),
{
    let units = items.map_values(|item: T| seq![item]);
    if items.len() == 1 {
        assert(items =~= seq![items[0]]);
    } else if items.len() > 1 {
        let tail = items.skip(1);
        lemma_unit_chunks(tail);
        assert(items.take(1) =~= seq![items[0]]);
        assert(units =~= seq![items.take(1)] + tail.map_values(|item: T| seq![item]));
    }
    assert(chunks(items, 1) =~= units);
}

} // verus!
