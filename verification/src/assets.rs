use vstd::prelude::*;

use crate::error::AppError;

verus! {

/// Where the first asset with id `asset_id` stands in a list of asset ids,
/// as `Iterator::find` picks it; an id that is not listed is an asset that
/// does not exist.
pub fn find_asset(ids: &[i64], asset_id: i64) -> (r: Result<usize, AppError>)
    ensures
        r matches Ok(i) ==> i < ids@.len() && ids@[i as int] == asset_id && forall|j: int|
            0 <= j < i ==> ids@[j] != asset_id,
        r is Err ==> r == Err::<usize, AppError>(AppError::AssetDoesNotExist),
        r is Err <==> forall|j: int| 0 <= j < ids@.len() ==> ids@[j] != asset_id,
{
    let n = ids.len();
    for i in 0..n
        invariant
            n == ids@.len(),
            forall|j: int| 0 <= j < i ==> ids@[j] != asset_id,
    {
        if ids[i] == asset_id {
            return Ok(i);
        }
    }
    Err(AppError::AssetDoesNotExist)
}

/// The answer to an update of an asset, given what the update statement
/// returned: the updated row, or, when no row has the id, an asset that
/// does not exist; a failure of the database is passed on.
pub fn updated_asset<T>(updated: Result<Option<T>, sqlx::Error>) -> (r: Result<T, AppError>)
    ensures
        updated matches Ok(Some(asset)) ==> r == Ok::<T, AppError>(asset),
        updated matches Ok(None) ==> r == Err::<T, AppError>(AppError::AssetDoesNotExist),
        updated matches Err(e) ==> r == Err::<T, AppError>(AppError::Database(e)),
{
    match updated {
        Ok(Some(asset)) => Ok(asset),
        Ok(None) => Err(AppError::AssetDoesNotExist),
        Err(e) => Err(AppError::Database(e)),
    }
}

} // verus!
